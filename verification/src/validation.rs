//! What the device demands of a recorded frame, and the proof that every
//! frame the scene records meets it.
//!
//! A recorder is followed through the commands one by one. Passes do not
//! nest, buffers are written between passes, and a draw needs everything
//! that its pipeline reads: a vertex buffer of the right shape in each slot
//! the pipeline takes, the indices of the mesh whose vertices are bound, a
//! resource set of the right kind at each index of the pipeline's layout,
//! and no more indices or instances than there are.

use vstd::prelude::*;
use crate::color_pass::{light_bind_groups, light_vertex_layouts, render_bind_groups};
use crate::color_pass::{render_vertex_layouts, scene_passes};
use crate::command::{mesh_as_light, mesh_instanced, model_as_light, model_instanced};
use crate::command::{BindGroup, Command, LoadOp, Pipeline, VertexBuffer};
use crate::model::{materials_bound, Mesh};
use crate::render_pipeline::{RenderPipelineView, VertexLayout};
use crate::state::StateView;
use crate::surface::DepthTexture;

verus! {

/// What a recorder has bound.
pub struct Recording {
    /// The depth attachment of the pass that is open, if one is.
    pub pass: Option<DepthTexture>,
    pub pipeline: Option<Pipeline>,
    /// The vertex buffers in slots 0 and 1.
    pub vertices: (Option<VertexBuffer>, Option<VertexBuffer>),
    /// The mesh whose indices are bound.
    pub indices: Option<usize>,
    /// The resource sets at indices 0, 1 and 2.
    pub groups: (Option<BindGroup>, Option<BindGroup>, Option<BindGroup>),
}

/// What a frame draws from: the model, the number of instances, the two
/// pipelines and the depth attachment.
pub struct Scene {
    pub meshes: Seq<Mesh>,
    pub materials: int,
    pub instances: nat,
    pub render_pipeline: RenderPipelineView,
    pub light_render_pipeline: RenderPipelineView,
    pub depth_texture: DepthTexture,
}

impl VertexBuffer {
    /// The shape of the records that the buffer holds.
    pub open spec fn layout(self) -> VertexLayout {
        match self {
            VertexBuffer::Mesh(_) => VertexLayout::ModelVertex,
            VertexBuffer::Instances => VertexLayout::InstanceRaw,
        }
    }
}

impl Scene {
    /// The description of one of the two pipelines.
    pub open spec fn pipeline(self, pipeline: Pipeline) -> RenderPipelineView {
        match pipeline {
            Pipeline::Render => self.render_pipeline,
            Pipeline::Light => self.light_render_pipeline,
        }
    }

    /// The scene that a state draws.
    pub open spec fn of<C>(state: StateView<C>) -> Scene {
        Scene {
            meshes: state.color_pass.meshes,
            materials: state.color_pass.materials,
            instances: state.color_pass.instances.len(),
            render_pipeline: state.color_pass.render_pipeline,
            light_render_pipeline: state.color_pass.light_render_pipeline,
            depth_texture: state.depth_texture,
        }
    }
}

impl Recording {
    /// A recorder outside any pass, with nothing bound.
    pub open spec fn idle() -> Recording {
        Recording {
            pass: None,
            pipeline: None,
            vertices: (None, None),
            indices: None,
            groups: (None, None, None),
        }
    }

    /// The vertex buffer in a slot.
    pub open spec fn vertex_slot(self, slot: int) -> Option<VertexBuffer> {
        if slot == 0 {
            self.vertices.0
        } else if slot == 1 {
            self.vertices.1
        } else {
            None
        }
    }

    /// The resource set at an index.
    pub open spec fn group_slot(self, index: int) -> Option<BindGroup> {
        if index == 0 {
            self.groups.0
        } else if index == 1 {
            self.groups.1
        } else if index == 2 {
            self.groups.2
        } else {
            None
        }
    }

    /// Whether a draw of `indices` indices for `instances` instances may be
    /// issued now.
    pub open spec fn may_draw(self, indices: u32, instances: u32, scene: Scene) -> bool {
        &&& self.pass is Some
        &&& self.pipeline matches Some(pipeline)
        &&& self.indices matches Some(mesh)
        &&& mesh < scene.meshes.len()
        &&& self.vertices.0 == Some(VertexBuffer::Mesh(mesh))
        &&& indices <= scene.meshes[mesh as int].num_elements
        &&& forall|slot: int|
            0 <= slot < scene.pipeline(pipeline).vertex_layouts.len() ==> (
            #[trigger] self.vertex_slot(slot) matches Some(buffer) && buffer.layout()
                == scene.pipeline(pipeline).vertex_layouts[slot])
        &&& forall|index: int|
            0 <= index < scene.pipeline(pipeline).bind_group_layouts.len() ==> (
            #[trigger] self.group_slot(index) matches Some(group) && group.layout()
                == scene.pipeline(pipeline).bind_group_layouts[index] && (
            group matches BindGroup::Material(material) ==> material
                == scene.meshes[mesh as int].material && material < scene.materials))
        &&& (self.vertices.1 == Some(VertexBuffer::Instances) && scene.pipeline(
            pipeline,
        ).vertex_layouts.contains(VertexLayout::InstanceRaw)) ==> instances <= scene.instances
        &&& !scene.pipeline(pipeline).vertex_layouts.contains(VertexLayout::InstanceRaw)
            ==> instances == 1
    }

    /// The recorder after a command, or `None` where the device would turn
    /// the command down.
    pub open spec fn accept(self, command: Command, scene: Scene) -> Option<Recording> {
        match command {
            Command::BeginRenderPass { depth_texture, .. } => if self.pass is None && depth_texture
                == scene.depth_texture {
                Some(Recording { pass: Some(depth_texture), ..Recording::idle() })
            } else {
                None
            },
            Command::EndRenderPass => if self.pass is Some {
                Some(Recording::idle())
            } else {
                None
            },
            Command::WriteBuffer(_) => if self.pass is None {
                Some(self)
            } else {
                None
            },
            Command::SetPipeline(pipeline) => if self.pass is Some {
                Some(Recording { pipeline: Some(pipeline), ..self })
            } else {
                None
            },
            Command::SetBindGroup { index, group } => if self.pass is Some && index == 0 {
                Some(Recording { groups: (Some(group), self.groups.1, self.groups.2), ..self })
            } else if self.pass is Some && index == 1 {
                Some(Recording { groups: (self.groups.0, Some(group), self.groups.2), ..self })
            } else if self.pass is Some && index == 2 {
                Some(Recording { groups: (self.groups.0, self.groups.1, Some(group)), ..self })
            } else {
                None
            },
            Command::SetVertexBuffer { slot, buffer } => if self.pass is Some && slot == 0 {
                Some(Recording { vertices: (Some(buffer), self.vertices.1), ..self })
            } else if self.pass is Some && slot == 1 {
                Some(Recording { vertices: (self.vertices.0, Some(buffer)), ..self })
            } else {
                None
            },
            Command::SetIndexBuffer { mesh } => if self.pass is Some && mesh < scene.meshes.len() {
                Some(Recording { indices: Some(mesh), ..self })
            } else {
                None
            },
            Command::DrawIndexed { indices, instances } => if self.may_draw(
                indices,
                instances,
                scene,
            ) {
                Some(self)
            } else {
                None
            },
        }
    }

    /// The recorder after the first `upto` of the commands, or `None` where
    /// the device would turn one of them down.
    pub open spec fn replay_upto(self, commands: Seq<Command>, upto: nat, scene: Scene) -> Option<
        Recording,
    >
        decreases upto,
    {
        if upto == 0 {
            Some(self)
        } else {
            match self.replay_upto(commands, (upto - 1) as nat, scene) {
                Some(recording) => recording.accept(commands[upto - 1], scene),
                None => None,
            }
        }
    }

    /// The recorder after all the commands, or `None` where the device would
    /// turn one of them down.
    pub open spec fn replay(self, commands: Seq<Command>, scene: Scene) -> Option<Recording> {
        self.replay_upto(commands, commands.len(), scene)
    }
}

/// Replaying one list after another is replaying the second from where the
/// first ended.
pub proof fn lemma_replay_concat(
    start: Recording,
    first: Seq<Command>,
    second: Seq<Command>,
    scene: Scene,
)
    ensures
        start.replay(first + second, scene) == match start.replay(first, scene) {
            Some(middle) => middle.replay(second, scene),
            None => None,
        },
{
    lemma_replay_first(start, first, second, first.len(), scene);
    lemma_replay_second(start, first, second, second.len(), scene);
}

proof fn lemma_replay_first(
    start: Recording,
    first: Seq<Command>,
    second: Seq<Command>,
    upto: nat,
    scene: Scene,
)
    requires
        upto <= first.len(),
    ensures
        start.replay_upto(first + second, upto, scene) == start.replay_upto(first, upto, scene),
    decreases upto,
{
    if upto > 0 {
        lemma_replay_first(start, first, second, (upto - 1) as nat, scene);
    }
}

proof fn lemma_replay_second(
    start: Recording,
    first: Seq<Command>,
    second: Seq<Command>,
    upto: nat,
    scene: Scene,
)
    requires
        upto <= second.len(),
    ensures
        start.replay_upto(first + second, first.len() + upto, scene) == match start.replay(
            first,
            scene,
        ) {
            Some(middle) => middle.replay_upto(second, upto, scene),
            None => None,
        },
    decreases upto,
{
    if upto == 0 {
        lemma_replay_first(start, first, second, first.len(), scene);
    } else {
        lemma_replay_second(start, first, second, (upto - 1) as nat, scene);
    }
}

impl Scene {
    /// The model's meshes have their materials and can be counted, the
    /// instances fit a draw call, and each pipeline takes the vertex
    /// buffers and resource sets that its pass binds.
    pub open spec fn wf(self) -> bool {
        &&& materials_bound(self.meshes, self.materials)
        &&& self.meshes.len() <= usize::MAX
        &&& self.instances <= u32::MAX
        &&& self.render_pipeline.bind_group_layouts == render_bind_groups()
        &&& self.render_pipeline.vertex_layouts == render_vertex_layouts()
        &&& self.light_render_pipeline.bind_group_layouts == light_bind_groups()
        &&& self.light_render_pipeline.vertex_layouts == light_vertex_layouts()
    }
}

/// The recorder after the meshes of `drawn` were drawn instanced, one after
/// the other: bound to the last of them.
pub open spec fn after_instanced(start: Recording, drawn: Seq<Mesh>) -> Recording {
    if drawn.len() == 0 {
        start
    } else {
        Recording {
            vertices: (Some(VertexBuffer::Mesh((drawn.len() - 1) as usize)), start.vertices.1),
            indices: Some((drawn.len() - 1) as usize),
            groups: (
                Some(BindGroup::Material(drawn.last().material)),
                Some(BindGroup::Camera),
                Some(BindGroup::Light),
            ),
            ..start
        }
    }
}

/// The recorder after the meshes of `drawn` were drawn as the light's
/// gizmo, one after the other: bound to the last of them.
pub open spec fn after_light(start: Recording, drawn: Seq<Mesh>) -> Recording {
    if drawn.len() == 0 {
        start
    } else {
        Recording {
            vertices: (Some(VertexBuffer::Mesh((drawn.len() - 1) as usize)), start.vertices.1),
            indices: Some((drawn.len() - 1) as usize),
            groups: (Some(BindGroup::Camera), Some(BindGroup::Light), start.groups.2),
            ..start
        }
    }
}

/// In a pass that has the render pipeline set and the instance records in
/// slot 1, the device accepts the instanced draws of any number of the
/// model's meshes, taken from the first on, for all instances.
pub proof fn lemma_instanced_draws_are_accepted(start: Recording, drawn: Seq<Mesh>, scene: Scene)
    requires
        scene.wf(),
        start.pass is Some,
        start.pipeline == Some(Pipeline::Render),
        start.vertices.1 == Some(VertexBuffer::Instances),
        drawn.len() <= scene.meshes.len(),
        forall|i: int| 0 <= i < drawn.len() ==> drawn[i] == scene.meshes[i],
    ensures
        start.replay(model_instanced(drawn, scene.instances as u32), scene) == Some(
            after_instanced(start, drawn),
        ),
    decreases drawn.len(),
{
    let instances = scene.instances as u32;
    if drawn.len() > 0 {
        let earlier = drawn.drop_last();
        let index = drawn.len() - 1;
        let mesh = drawn.last();
        lemma_instanced_draws_are_accepted(start, earlier, scene);
        let bound = after_instanced(start, earlier);
        let steps = mesh_instanced(index, mesh, instances);
        lemma_replay_concat(start, model_instanced(earlier, instances), steps, scene);
        let ready = after_instanced(start, drawn);
        assert(ready.may_draw(mesh.num_elements, instances, scene));
        assert(bound.replay(steps, scene) == Some(ready)) by {
            reveal_with_fuel(Recording::replay_upto, 7);
        }
    }
}

/// In a pass that has the light pipeline set, the device accepts the
/// single draws of any number of the model's meshes, taken from the first
/// on.
pub proof fn lemma_light_draws_are_accepted(start: Recording, drawn: Seq<Mesh>, scene: Scene)
    requires
        scene.wf(),
        start.pass is Some,
        start.pipeline == Some(Pipeline::Light),
        drawn.len() <= scene.meshes.len(),
        forall|i: int| 0 <= i < drawn.len() ==> drawn[i] == scene.meshes[i],
    ensures
        start.replay(model_as_light(drawn), scene) == Some(after_light(start, drawn)),
    decreases drawn.len(),
{
    if drawn.len() > 0 {
        let earlier = drawn.drop_last();
        let index = drawn.len() - 1;
        let mesh = drawn.last();
        lemma_light_draws_are_accepted(start, earlier, scene);
        let bound = after_light(start, earlier);
        let steps = mesh_as_light(index, mesh);
        lemma_replay_concat(start, model_as_light(earlier), steps, scene);
        let ready = after_light(start, drawn);
        assert(ready.may_draw(mesh.num_elements, 1, scene));
        assert(bound.replay(steps, scene) == Some(ready)) by {
            reveal_with_fuel(Recording::replay_upto, 6);
        }
    }
}

/// The device accepts the two passes that draw the scene, and is left
/// outside any pass with nothing bound.
pub proof fn lemma_scene_passes_are_accepted(scene: Scene)
    requires
        scene.wf(),
    ensures
        Recording::idle().replay(
            scene_passes(scene.meshes, scene.instances as u32, scene.depth_texture),
            scene,
        ) == Some(Recording::idle()),
{
    let instances = scene.instances as u32;
    let depth_texture = scene.depth_texture;
    let open_render = seq![
        Command::BeginRenderPass { color: LoadOp::Load, depth: LoadOp::Load, depth_texture },
        Command::SetVertexBuffer { slot: 1, buffer: VertexBuffer::Instances },
        Command::SetPipeline(Pipeline::Render),
    ];
    let instanced = model_instanced(scene.meshes, instances);
    let open_light = seq![
        Command::EndRenderPass,
        Command::BeginRenderPass { color: LoadOp::Load, depth: LoadOp::Load, depth_texture },
        Command::SetPipeline(Pipeline::Light),
    ];
    let as_light = model_as_light(scene.meshes);
    let close = seq![Command::EndRenderPass];

    let in_render = Recording {
        pass: Some(depth_texture),
        pipeline: Some(Pipeline::Render),
        vertices: (None, Some(VertexBuffer::Instances)),
        ..Recording::idle()
    };
    let in_light = Recording {
        pass: Some(depth_texture),
        pipeline: Some(Pipeline::Light),
        ..Recording::idle()
    };

    assert(Recording::idle().replay(open_render, scene) == Some(in_render)) by {
        reveal_with_fuel(Recording::replay_upto, 4);
    }
    lemma_instanced_draws_are_accepted(in_render, scene.meshes, scene);
    let drawn = after_instanced(in_render, scene.meshes);
    assert(drawn.replay(open_light, scene) == Some(in_light)) by {
        reveal_with_fuel(Recording::replay_upto, 4);
    }
    lemma_light_draws_are_accepted(in_light, scene.meshes, scene);
    let lit = after_light(in_light, scene.meshes);
    assert(lit.replay(close, scene) == Some(Recording::idle())) by {
        reveal_with_fuel(Recording::replay_upto, 2);
    }

    lemma_replay_concat(Recording::idle(), open_render, instanced, scene);
    lemma_replay_concat(Recording::idle(), open_render + instanced, open_light, scene);
    lemma_replay_concat(Recording::idle(), open_render + instanced + open_light, as_light, scene);
    lemma_replay_concat(
        Recording::idle(),
        open_render + instanced + open_light + as_light,
        close,
        scene,
    );
}

/// Every frame that a well-formed state records is accepted by the device:
/// passes open and close in turn on the depth attachment of the surface's
/// size, buffers are written between passes, every draw finds the vertex
/// buffers, indices and resource sets that its pipeline reads, with the
/// material of the mesh that it draws, and the recorder ends outside any
/// pass.
pub proof fn lemma_frame_is_accepted<C>(state: StateView<C>)
    requires
        state.wf(),
    ensures
        Scene::of(state).wf(),
        Scene::of(state).depth_texture == DepthTexture::sized_to(state.context.config),
        Recording::idle().replay(state.commands(), Scene::of(state)) == Some(Recording::idle()),
{
    let scene = Scene::of(state);
    let depth_texture = state.depth_texture;
    let clear = seq![
        Command::BeginRenderPass { color: LoadOp::Clear, depth: LoadOp::Clear, depth_texture },
        Command::EndRenderPass,
        Command::WriteBuffer(state.color_pass.uploads()[0]),
        Command::WriteBuffer(state.color_pass.uploads()[1]),
        Command::WriteBuffer(state.color_pass.uploads()[2]),
    ];
    assert(Recording::idle().replay(clear, scene) == Some(Recording::idle())) by {
        reveal_with_fuel(Recording::replay_upto, 6);
    }
    lemma_scene_passes_are_accepted(scene);
    assert(state.color_pass.passes(depth_texture) == scene_passes(
        scene.meshes,
        scene.instances as u32,
        scene.depth_texture,
    ));
    lemma_replay_concat(
        Recording::idle(),
        clear,
        state.color_pass.passes(depth_texture),
        scene,
    );
}

} // verus!
