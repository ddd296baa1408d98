//! The loaded model, as far as drawing it goes: its sub-meshes, each with
//! the number of indices to draw and the material bound to it.

use vstd::prelude::*;

verus! {

/// One drawable sub-mesh.
#[derive(Clone, Copy, Debug, PartialEq, Eq, Structural)]
pub struct Mesh {
    /// How many indices its index buffer holds.
    pub num_elements: u32,
    /// Which of the model's materials it is drawn with.
    pub material: usize,
}

/// A loaded model. It does not change once it is made.
pub struct Model {
    meshes: Vec<Mesh>,
    materials: usize,
}

/// Every mesh names one of `materials` materials.
pub open spec fn materials_bound(meshes: Seq<Mesh>, materials: int) -> bool {
    forall|i: int| 0 <= i < meshes.len() ==> (#[trigger] meshes[i]).material < materials
}

impl Model {
    /// The sub-meshes, in drawing order.
    pub closed spec fn meshes(&self) -> Seq<Mesh> {
        self.meshes@
    }

    /// The number of materials.
    pub closed spec fn materials(&self) -> int {
        self.materials as int
    }

    /// Every mesh names a material that the model has, and the meshes can
    /// be counted.
    pub open spec fn wf(&self) -> bool {
        &&& materials_bound(self.meshes(), self.materials())
        &&& self.meshes().len() <= usize::MAX
    }

    /// The model with these sub-meshes and this many materials, unless a
    /// sub-mesh names a material that is not there.
    pub fn new(meshes: Vec<Mesh>, materials: usize) -> (model: Option<Model>)
        ensures
            model.is_some() <==> materials_bound(meshes@, materials as int),
            model matches Some(m) ==> m.meshes() == meshes@ && m.materials() == materials && m.wf(),
    {
        let mut i: usize = 0;
        while i < meshes.len()
            invariant
                i <= meshes.len(),
                forall|j: int| 0 <= j < i ==> (#[trigger] meshes@[j]).material < materials,
            decreases meshes.len() - i,
        {
            if meshes[i].material >= materials {
                return None;
            }
            i = i + 1;
        }
        Some(Model { meshes, materials })
    }

    /// The number of sub-meshes.
    pub fn mesh_count(&self) -> (count: usize)
        ensures
            count == self.meshes().len(),
    {
        self.meshes.len()
    }

    /// The number of materials.
    pub fn material_count(&self) -> (count: usize)
        ensures
            count == self.materials(),
    {
        self.materials
    }

    /// Sub-mesh `index`, if there is one.
    pub fn mesh(&self, index: usize) -> (found: Option<Mesh>)
        ensures
            found == if index < self.meshes().len() {
                Some(self.meshes()[index as int])
            } else {
                None::<Mesh>
            },
    {
        if index < self.meshes.len() {
            Some(self.meshes[index])
        } else {
            None
        }
    }
}

} // verus!
