//! The scene pass: the instances, the camera, the light and the two
//! pipelines, how each frame moves them on, and what a frame records to
//! draw them.

use vstd::prelude::*;
use crate::angle::Degrees;
use crate::camera::{AspectRatio, Camera, CameraController, CameraResources};
use crate::command::{draw_light_model, draw_model_instanced};
use crate::command::{model_as_light, model_instanced};
use crate::command::{Command, LoadOp, Pipeline, Upload, VertexBuffer};
use crate::input::{InputEvent, Key};
use crate::instance::{all_turned, grid};
use crate::instance::{Instance, InstanceSet, RAW_INSTANCE_BYTES};
use crate::light::{LightResources, LIGHT_STEP};
use crate::model::{materials_bound, Mesh, Model};
use crate::render_pipeline::{create_render_pipeline, described_pipeline};
use crate::render_pipeline::{BindGroupLayout, RenderPipeline, RenderPipelineView};
use crate::render_pipeline::{ShaderProgram, VertexLayout};
use crate::surface::{DepthTexture, PhysicalSize, SurfaceConfiguration};
use crate::toggle_bool::BoolToggleExt;

verus! {

/// Instances along one side of the grid.
pub const NUM_INSTANCES_PER_ROW: u32 = 10;

/// World units between neighbouring instances.
pub const SPACE_BETWEEN: u32 = 3;

/// Degrees that every instance turns about the vertical axis each frame.
pub const ROTATION_SPEED: u16 = 2;

/// Degrees that the object rotation handed to the shaders grows by each frame.
pub const OBJECT_ROTATION_STEP: u16 = 0;

/// The scene pass. `C` is the type of a colour; the pass only keeps one.
pub struct ColorPass<C> {
    clear_color: C,
    instances: InstanceSet,
    render_pipeline: RenderPipeline,
    light_render_pipeline: RenderPipeline,
    camera_resources: CameraResources,
    light_resources: LightResources,
    space_state_on: bool,
    size: PhysicalSize,
    object_rotation: Degrees,
    model: Model,
}

/// The scene pass, as a value.
pub struct ColorPassView<C> {
    pub clear_color: C,
    pub instances: Seq<Instance>,
    pub render_pipeline: RenderPipelineView,
    pub light_render_pipeline: RenderPipelineView,
    pub camera_resources: CameraResources,
    pub light_resources: LightResources,
    pub space_state_on: bool,
    pub size: PhysicalSize,
    pub object_rotation: Degrees,
    pub meshes: Seq<Mesh>,
    pub materials: int,
}

/// The resource sets of the pipeline for the instanced geometry, by index.
pub open spec fn render_bind_groups() -> Seq<BindGroupLayout> {
    seq![BindGroupLayout::Texture, BindGroupLayout::Camera, BindGroupLayout::Light]
}

/// The resource sets of the pipeline for the light's gizmo, by index.
pub open spec fn light_bind_groups() -> Seq<BindGroupLayout> {
    seq![BindGroupLayout::Camera, BindGroupLayout::Light]
}

/// The vertex buffers of the pipeline for the instanced geometry, by slot.
pub open spec fn render_vertex_layouts() -> Seq<VertexLayout> {
    seq![VertexLayout::ModelVertex, VertexLayout::InstanceRaw]
}

/// The vertex buffers of the pipeline for the light's gizmo, by slot.
pub open spec fn light_vertex_layouts() -> Seq<VertexLayout> {
    seq![VertexLayout::ModelVertex]
}

/// The pipeline for the instanced geometry: mesh vertices in slot 0,
/// instance records in slot 1, depth-tested.
pub open spec fn render_pipeline_for(config: SurfaceConfiguration) -> RenderPipelineView {
    described_pipeline(
        render_bind_groups(),
        config.format,
        Some(DepthTexture::format()),
        render_vertex_layouts(),
        ShaderProgram::Color,
    )
}

/// The pipeline for the light's gizmo: mesh vertices only, depth-tested.
pub open spec fn light_pipeline_for(config: SurfaceConfiguration) -> RenderPipelineView {
    described_pipeline(
        light_bind_groups(),
        config.format,
        Some(DepthTexture::format()),
        light_vertex_layouts(),
        ShaderProgram::Light,
    )
}

/// The aspect ratio of a surface of this configuration.
pub open spec fn aspect_of(config: SurfaceConfiguration) -> AspectRatio {
    AspectRatio { width: config.width, height: config.height }
}

/// The two passes that draw the scene on top of what the attachments hold:
/// first every sub-mesh for all `instances` instances with the render
/// pipeline, then every sub-mesh once with the light pipeline. Both passes
/// load the same colour and depth attachments, so the gizmo is tested
/// against the depth of the geometry.
pub open spec fn scene_passes(meshes: Seq<Mesh>, instances: u32, depth_texture: DepthTexture) -> Seq<
    Command,
> {
    seq![
        Command::BeginRenderPass { color: LoadOp::Load, depth: LoadOp::Load, depth_texture },
        Command::SetVertexBuffer { slot: 1, buffer: VertexBuffer::Instances },
        Command::SetPipeline(Pipeline::Render),
    ] + model_instanced(meshes, instances) + seq![
        Command::EndRenderPass,
        Command::BeginRenderPass { color: LoadOp::Load, depth: LoadOp::Load, depth_texture },
        Command::SetPipeline(Pipeline::Light),
    ] + model_as_light(meshes) + seq![Command::EndRenderPass]
}

impl<C> ColorPassView<C> {
    /// Orientations and angles are reduced, every mesh has its material, the
    /// instances fit a draw call, the pipelines take the vertex buffers and
    /// resource sets that the passes bind, and the camera's aspect ratio is
    /// that of the pass's size.
    pub open spec fn wf(self) -> bool {
        &&& forall|i: int| 0 <= i < self.instances.len() ==> (#[trigger] self.instances[i]).wf()
        &&& self.instances.len() <= u32::MAX
        &&& materials_bound(self.meshes, self.materials)
        &&& self.meshes.len() <= usize::MAX
        &&& self.render_pipeline.bind_group_layouts == render_bind_groups()
        &&& self.render_pipeline.vertex_layouts == render_vertex_layouts()
        &&& self.light_render_pipeline.bind_group_layouts == light_bind_groups()
        &&& self.light_render_pipeline.vertex_layouts == light_vertex_layouts()
        &&& self.light_resources.wf()
        &&& self.object_rotation.wf()
        &&& self.camera_resources.camera.aspect == (AspectRatio {
            width: self.size.width,
            height: self.size.height,
        })
    }

    /// The pass as it starts: the grid of instances with their first
    /// orientations, the light at its start, no key held, the flag off.
    pub open spec fn initial(
        config: SurfaceConfiguration,
        meshes: Seq<Mesh>,
        materials: int,
        clear_color: C,
    ) -> ColorPassView<C> {
        ColorPassView {
            clear_color,
            instances: grid(NUM_INSTANCES_PER_ROW as int, SPACE_BETWEEN as int),
            render_pipeline: render_pipeline_for(config),
            light_render_pipeline: light_pipeline_for(config),
            camera_resources: CameraResources {
                camera: Camera { aspect: aspect_of(config) },
                camera_controller: CameraController::released(),
            },
            light_resources: LightResources::at_start(),
            space_state_on: false,
            size: config.size(),
            object_rotation: Degrees::spec_new(0),
            meshes,
            materials,
        }
    }

    /// The pass after the surface took this configuration: the camera has
    /// the surface's aspect ratio and the pass its size. Nothing else
    /// changes; the pipelines in particular stay.
    pub open spec fn after_resize(self, config: SurfaceConfiguration) -> ColorPassView<C> {
        ColorPassView {
            camera_resources: CameraResources {
                camera: Camera { aspect: aspect_of(config) },
                camera_controller: self.camera_resources.camera_controller,
            },
            size: config.size(),
            ..self
        }
    }

    /// Whether the event switches the flag: Space going down.
    pub open spec fn toggles(event: InputEvent) -> bool {
        event matches InputEvent::Keyboard { key, pressed } && key == Key::Space && pressed
    }

    /// The pass after an event: the camera's controller has seen it, and the
    /// flag is switched if the event is Space going down.
    pub open spec fn after_input(self, event: InputEvent) -> ColorPassView<C> {
        ColorPassView {
            camera_resources: CameraResources {
                camera: self.camera_resources.camera,
                camera_controller: self.camera_resources.camera_controller.after(event),
            },
            space_state_on: if Self::toggles(event) {
                !self.space_state_on
            } else {
                self.space_state_on
            },
            ..self
        }
    }

    /// The pass one frame on: every instance turned by `ROTATION_SPEED`
    /// degrees, composed on the left; the light `LIGHT_STEP` degrees further
    /// along its orbit; the object rotation grown by its step.
    pub open spec fn updated(self) -> ColorPassView<C> {
        ColorPassView {
            instances: all_turned(self.instances, Degrees::spec_new(ROTATION_SPEED as int)),
            light_resources: self.light_resources.ticked(Degrees::spec_new(LIGHT_STEP as int)),
            object_rotation: self.object_rotation.spec_plus(
                Degrees::spec_new(OBJECT_ROTATION_STEP as int),
            ),
            ..self
        }
    }

    /// The buffers that a frame writes, in order: the camera's uniform, all
    /// instance records, the light's uniform.
    pub open spec fn uploads(self) -> Seq<Upload> {
        seq![
            Upload::CameraUniform,
            Upload::InstanceBuffer { bytes: (self.instances.len() * RAW_INSTANCE_BYTES) as u64 },
            Upload::LightUniform,
        ]
    }

    /// The passes that draw the scene with this depth attachment.
    pub open spec fn passes(self, depth_texture: DepthTexture) -> Seq<Command> {
        scene_passes(self.meshes, self.instances.len() as u32, depth_texture)
    }
}

impl<C> View for ColorPass<C> {
    type V = ColorPassView<C>;

    closed spec fn view(&self) -> ColorPassView<C> {
        ColorPassView {
            clear_color: self.clear_color,
            instances: self.instances@,
            render_pipeline: self.render_pipeline@,
            light_render_pipeline: self.light_render_pipeline@,
            camera_resources: self.camera_resources,
            light_resources: self.light_resources,
            space_state_on: self.space_state_on,
            size: self.size,
            object_rotation: self.object_rotation,
            meshes: self.model.meshes(),
            materials: self.model.materials(),
        }
    }
}

impl<C> ColorPass<C> {
    /// The scene pass for a surface of this configuration, drawing `model`
    /// and clearing to `clear_color`.
    pub fn new(config: &SurfaceConfiguration, model: Model, clear_color: C) -> (pass: ColorPass<C>)
        ensures
            pass@ == ColorPassView::initial(*config, model.meshes(), model.materials(), clear_color),
            model.wf() ==> pass@.wf(),
    {
        let camera_resources = CameraResources::new(
            AspectRatio { width: config.width, height: config.height },
        );
        let light_resources = LightResources::new();

        let mut render_layout: Vec<BindGroupLayout> = Vec::new();
        render_layout.push(BindGroupLayout::Texture);
        render_layout.push(BindGroupLayout::Camera);
        render_layout.push(BindGroupLayout::Light);
        let mut render_inputs: Vec<VertexLayout> = Vec::new();
        render_inputs.push(VertexLayout::ModelVertex);
        render_inputs.push(VertexLayout::InstanceRaw);
        let render_pipeline = create_render_pipeline(
            render_layout,
            config.format,
            Some(DepthTexture::depth_format()),
            render_inputs,
            ShaderProgram::Color,
        );

        let mut light_layout: Vec<BindGroupLayout> = Vec::new();
        light_layout.push(BindGroupLayout::Camera);
        light_layout.push(BindGroupLayout::Light);
        let mut light_inputs: Vec<VertexLayout> = Vec::new();
        light_inputs.push(VertexLayout::ModelVertex);
        let light_render_pipeline = create_render_pipeline(
            light_layout,
            config.format,
            Some(DepthTexture::depth_format()),
            light_inputs,
            ShaderProgram::Light,
        );

        let instances = InstanceSet::generate(NUM_INSTANCES_PER_ROW, SPACE_BETWEEN);
        let pass = ColorPass {
            clear_color,
            instances,
            render_pipeline,
            light_render_pipeline,
            camera_resources,
            light_resources,
            space_state_on: false,
            size: PhysicalSize { width: config.width, height: config.height },
            object_rotation: Degrees::zero(),
            model,
        };
        proof {
            assert(pass.render_pipeline@.bind_group_layouts =~= render_bind_groups());
            assert(pass.render_pipeline@.vertex_layouts =~= render_vertex_layouts());
            assert(pass.light_render_pipeline@.bind_group_layouts =~= light_bind_groups());
        }
        pass
    }

    /// Follows the surface to a new configuration.
    pub fn resize(&mut self, config: &SurfaceConfiguration)
        ensures
            final(self)@ == old(self)@.after_resize(*config),
    {
        self.camera_resources.camera.resize(
            AspectRatio { width: config.width, height: config.height },
        );
        self.size = PhysicalSize { width: config.width, height: config.height };
    }

    /// Hands the event to the camera's controller, and switches the flag if
    /// the event is Space going down. Says whether the flag was switched.
    pub fn input(&mut self, event: &InputEvent) -> (toggled: bool)
        ensures
            final(self)@ == old(self)@.after_input(*event),
            toggled == ColorPassView::<C>::toggles(*event),
    {
        self.camera_resources.camera_controller.process_events(event);
        match event {
            InputEvent::Keyboard { key: Key::Space, pressed: true } => {
                self.space_state_on.toggle();
                true
            },
            _ => false,
        }
    }

    /// The buffers that a frame writes, in order.
    pub fn uploads(&self) -> (uploads: Vec<Upload>)
        ensures
            uploads@ == self@.uploads(),
    {
        let mut uploads: Vec<Upload> = Vec::new();
        uploads.push(Upload::CameraUniform);
        uploads.push(Upload::InstanceBuffer { bytes: self.instances.byte_len() });
        uploads.push(Upload::LightUniform);
        uploads
    }

    /// Moves the scene one frame on, and says which buffers have to be
    /// written for it.
    pub fn update(&mut self) -> (uploads: Vec<Upload>)
        ensures
            final(self)@ == old(self)@.updated(),
            uploads@ == final(self)@.uploads(),
            old(self)@.wf() ==> final(self)@.wf(),
    {
        self.object_rotation = self.object_rotation.plus(Degrees::new(OBJECT_ROTATION_STEP as u32));
        self.instances.tick(Degrees::new(ROTATION_SPEED as u32));
        self.light_resources.tick(Degrees::new(LIGHT_STEP as u32));
        self.uploads()
    }

    /// The passes that draw the scene with this depth attachment.
    pub fn render(&self, depth_texture: &DepthTexture) -> (commands: Vec<Command>)
        ensures
            commands@ == self@.passes(*depth_texture),
    {
        let count: u32 = self.instances.len();
        let mut commands: Vec<Command> = Vec::new();
        commands.push(
            Command::BeginRenderPass {
                color: LoadOp::Load,
                depth: LoadOp::Load,
                depth_texture: *depth_texture,
            },
        );
        commands.push(Command::SetVertexBuffer { slot: 1, buffer: VertexBuffer::Instances });
        commands.push(Command::SetPipeline(Pipeline::Render));
        draw_model_instanced(&mut commands, &self.model, count);
        commands.push(Command::EndRenderPass);
        commands.push(
            Command::BeginRenderPass {
                color: LoadOp::Load,
                depth: LoadOp::Load,
                depth_texture: *depth_texture,
            },
        );
        commands.push(Command::SetPipeline(Pipeline::Light));
        draw_light_model(&mut commands, &self.model);
        commands.push(Command::EndRenderPass);
        commands
    }

    /// Sets the colour that the frame is cleared to.
    pub fn set_clear_color(&mut self, color: C)
        ensures
            final(self)@ == (ColorPassView { clear_color: color, ..old(self)@ }),
    {
        self.clear_color = color;
    }

    /// The colour that the frame is cleared to.
    pub fn clear_color(&self) -> (color: &C)
        ensures
            *color == self@.clear_color,
    {
        &self.clear_color
    }

    /// The instances, in grid order.
    pub fn instances(&self) -> (instances: &InstanceSet)
        ensures
            instances@ == self@.instances,
    {
        &self.instances
    }

    /// The pipeline for the instanced geometry.
    pub fn render_pipeline(&self) -> (pipeline: &RenderPipeline)
        ensures
            pipeline@ == self@.render_pipeline,
    {
        &self.render_pipeline
    }

    /// The pipeline for the light's gizmo.
    pub fn light_render_pipeline(&self) -> (pipeline: &RenderPipeline)
        ensures
            pipeline@ == self@.light_render_pipeline,
    {
        &self.light_render_pipeline
    }

    /// The camera and its controller.
    pub fn camera_resources(&self) -> (resources: CameraResources)
        ensures
            resources == self@.camera_resources,
    {
        self.camera_resources
    }

    /// The light.
    pub fn light_resources(&self) -> (light: LightResources)
        ensures
            light == self@.light_resources,
    {
        self.light_resources
    }

    /// Whether the flag that Space switches is on.
    pub fn space_state_on(&self) -> (on: bool)
        ensures
            on == self@.space_state_on,
    {
        self.space_state_on
    }

    /// The size of the surface that the pass draws to.
    pub fn size(&self) -> (size: PhysicalSize)
        ensures
            size == self@.size,
    {
        self.size
    }

    /// The rotation handed to the shaders.
    pub fn object_rotation(&self) -> (rotation: Degrees)
        ensures
            rotation == self@.object_rotation,
    {
        self.object_rotation
    }

    /// The model that the pass draws.
    pub fn model(&self) -> (model: &Model)
        ensures
            model.meshes() == self@.meshes,
            model.materials() == self@.materials,
    {
        &self.model
    }
}

} // verus!
