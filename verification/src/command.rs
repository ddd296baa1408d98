//! What a frame records: render passes, bindings, draws and buffer writes,
//! as plain values in the order in which they are issued.

use vstd::prelude::*;
use crate::model::{Mesh, Model};
use crate::render_pipeline::BindGroupLayout;
use crate::surface::DepthTexture;

verus! {

/// The two pipelines of the scene.
#[derive(Clone, Copy, Debug, PartialEq, Eq, Structural)]
pub enum Pipeline {
    /// Draws the instanced, lit geometry.
    Render,
    /// Draws the light's gizmo.
    Light,
}

/// A set of resources to bind.
#[derive(Clone, Copy, Debug, PartialEq, Eq, Structural)]
pub enum BindGroup {
    /// Texture and sampler of the model's material with this number.
    Material(usize),
    /// The camera's uniform.
    Camera,
    /// The light's uniform.
    Light,
}

/// A buffer to read vertex data from.
#[derive(Clone, Copy, Debug, PartialEq, Eq, Structural)]
pub enum VertexBuffer {
    /// The vertices of the model's sub-mesh with this number.
    Mesh(usize),
    /// The instance records.
    Instances,
}

/// What a pass does to an attachment when it begins.
#[derive(Clone, Copy, Debug, PartialEq, Eq, Structural)]
pub enum LoadOp {
    /// Clear it: the colour to the clear colour, the depth to the far plane.
    Clear,
    /// Keep what earlier passes left in it.
    Load,
}

/// A buffer that is written anew each frame.
#[derive(Clone, Copy, Debug, PartialEq, Eq, Structural)]
pub enum Upload {
    /// The view-projection matrix and the object rotation.
    CameraUniform,
    /// Every instance record, from the start of the buffer.
    InstanceBuffer { bytes: u64 },
    /// The light's position and colour.
    LightUniform,
}

/// One recorded step of a frame.
#[derive(Clone, Copy, Debug, PartialEq, Eq, Structural)]
pub enum Command {
    /// Begins a pass on the frame's colour attachment and on this depth
    /// attachment. Both are stored when the pass ends.
    BeginRenderPass { color: LoadOp, depth: LoadOp, depth_texture: DepthTexture },
    EndRenderPass,
    SetPipeline(Pipeline),
    SetBindGroup { index: u32, group: BindGroup },
    SetVertexBuffer { slot: u32, buffer: VertexBuffer },
    /// Takes the indices of the sub-mesh with this number.
    SetIndexBuffer { mesh: usize },
    /// Draws indices `0..indices` for instances `0..instances`.
    DrawIndexed { indices: u32, instances: u32 },
    /// Writes the buffer through the queue.
    WriteBuffer(Upload),
}

/// The recorded steps of one frame, under a label.
#[derive(Debug, PartialEq, Eq)]
pub struct CommandEncoder {
    pub label: String,
    pub commands: Vec<Command>,
}

/// The recorded steps of one frame, as a value.
pub struct CommandEncoderView {
    pub label: Seq<char>,
    pub commands: Seq<Command>,
}

impl View for CommandEncoder {
    type V = CommandEncoderView;

    open spec fn view(&self) -> CommandEncoderView {
        CommandEncoderView { label: self.label@, commands: self.commands@ }
    }
}

impl BindGroup {
    /// The kind of resource set that this is.
    pub open spec fn layout(self) -> BindGroupLayout {
        match self {
            BindGroup::Material(_) => BindGroupLayout::Texture,
            BindGroup::Camera => BindGroupLayout::Camera,
            BindGroup::Light => BindGroupLayout::Light,
        }
    }
}

/// The steps that draw sub-mesh `index` once per instance: its buffers, its
/// material, the camera and the light, then the draw.
pub open spec fn mesh_instanced(index: int, mesh: Mesh, instances: u32) -> Seq<Command> {
    seq![
        Command::SetVertexBuffer { slot: 0, buffer: VertexBuffer::Mesh(index as usize) },
        Command::SetIndexBuffer { mesh: index as usize },
        Command::SetBindGroup { index: 0, group: BindGroup::Material(mesh.material) },
        Command::SetBindGroup { index: 1, group: BindGroup::Camera },
        Command::SetBindGroup { index: 2, group: BindGroup::Light },
        Command::DrawIndexed { indices: mesh.num_elements, instances },
    ]
}

/// The steps that draw sub-mesh `index` once, as the light's gizmo: its
/// buffers, the camera and the light, then the draw.
pub open spec fn mesh_as_light(index: int, mesh: Mesh) -> Seq<Command> {
    seq![
        Command::SetVertexBuffer { slot: 0, buffer: VertexBuffer::Mesh(index as usize) },
        Command::SetIndexBuffer { mesh: index as usize },
        Command::SetBindGroup { index: 0, group: BindGroup::Camera },
        Command::SetBindGroup { index: 1, group: BindGroup::Light },
        Command::DrawIndexed { indices: mesh.num_elements, instances: 1 },
    ]
}

/// The steps that draw every sub-mesh, in order, once per instance.
pub open spec fn model_instanced(meshes: Seq<Mesh>, instances: u32) -> Seq<Command>
    decreases meshes.len(),
{
    if meshes.len() == 0 {
        Seq::empty()
    } else {
        model_instanced(meshes.drop_last(), instances) + mesh_instanced(
            meshes.len() - 1,
            meshes.last(),
            instances,
        )
    }
}

/// The steps that draw every sub-mesh, in order, as the light's gizmo.
pub open spec fn model_as_light(meshes: Seq<Mesh>) -> Seq<Command>
    decreases meshes.len(),
{
    if meshes.len() == 0 {
        Seq::empty()
    } else {
        model_as_light(meshes.drop_last()) + mesh_as_light(meshes.len() - 1, meshes.last())
    }
}

/// Appends the steps that draw every sub-mesh of the model once per
/// instance.
pub fn draw_model_instanced(commands: &mut Vec<Command>, model: &Model, instances: u32)
    ensures
        final(commands)@ == old(commands)@ + model_instanced(model.meshes(), instances),
{
    let count: usize = model.mesh_count();
    let mut i: usize = 0;
    while i < count
        invariant
            i <= count,
            count == model.meshes().len(),
            commands@ == old(commands)@ + model_instanced(model.meshes().take(i as int), instances),
        decreases count - i,
    {
        let mesh: Mesh = model.mesh(i).unwrap();
        commands.push(Command::SetVertexBuffer { slot: 0, buffer: VertexBuffer::Mesh(i) });
        commands.push(Command::SetIndexBuffer { mesh: i });
        commands.push(Command::SetBindGroup { index: 0, group: BindGroup::Material(mesh.material) });
        commands.push(Command::SetBindGroup { index: 1, group: BindGroup::Camera });
        commands.push(Command::SetBindGroup { index: 2, group: BindGroup::Light });
        commands.push(Command::DrawIndexed { indices: mesh.num_elements, instances });
        proof {
            let next = model.meshes().take(i + 1);
            assert(next.drop_last() =~= model.meshes().take(i as int));
        }
        i = i + 1;
    }
    proof {
        assert(model.meshes().take(count as int) =~= model.meshes());
    }
}

/// Appends the steps that draw every sub-mesh of the model once, as the
/// light's gizmo.
pub fn draw_light_model(commands: &mut Vec<Command>, model: &Model)
    ensures
        final(commands)@ == old(commands)@ + model_as_light(model.meshes()),
{
    let count: usize = model.mesh_count();
    let mut i: usize = 0;
    while i < count
        invariant
            i <= count,
            count == model.meshes().len(),
            commands@ == old(commands)@ + model_as_light(model.meshes().take(i as int)),
        decreases count - i,
    {
        let mesh: Mesh = model.mesh(i).unwrap();
        commands.push(Command::SetVertexBuffer { slot: 0, buffer: VertexBuffer::Mesh(i) });
        commands.push(Command::SetIndexBuffer { mesh: i });
        commands.push(Command::SetBindGroup { index: 0, group: BindGroup::Camera });
        commands.push(Command::SetBindGroup { index: 1, group: BindGroup::Light });
        commands.push(Command::DrawIndexed { indices: mesh.num_elements, instances: 1 });
        proof {
            let next = model.meshes().take(i + 1);
            assert(next.drop_last() =~= model.meshes().take(i as int));
        }
        i = i + 1;
    }
    proof {
        assert(model.meshes().take(count as int) =~= model.meshes());
    }
}

/// Drawing the model instanced takes six steps per sub-mesh, the last of
/// them the one draw for that sub-mesh, which covers every instance.
pub proof fn lemma_model_instanced(meshes: Seq<Mesh>, instances: u32)
    ensures
        model_instanced(meshes, instances).len() == 6 * meshes.len(),
        forall|i: int, j: int|
            0 <= i < meshes.len() && 0 <= j < 6 ==> #[trigger] model_instanced(
                meshes,
                instances,
            )[6 * i + j] == mesh_instanced(i, meshes[i], instances)[j],
    decreases meshes.len(),
{
    if meshes.len() > 0 {
        lemma_model_instanced(meshes.drop_last(), instances);
    }
}

/// Drawing the model as the light's gizmo takes five steps per sub-mesh,
/// the last of them the one draw for that sub-mesh, of a single instance.
pub proof fn lemma_model_as_light(meshes: Seq<Mesh>)
    ensures
        model_as_light(meshes).len() == 5 * meshes.len(),
        forall|i: int, j: int|
            0 <= i < meshes.len() && 0 <= j < 5 ==> #[trigger] model_as_light(meshes)[5 * i + j]
                == mesh_as_light(i, meshes[i])[j],
    decreases meshes.len(),
{
    if meshes.len() > 0 {
        lemma_model_as_light(meshes.drop_last());
    }
}

} // verus!
