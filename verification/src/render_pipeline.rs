//! Descriptions of graphics pipelines. A pipeline is described once, from a
//! shader, the layouts of its inputs and the formats of its targets; every
//! other setting is fixed.

use vstd::prelude::*;
use crate::surface::{ColorFormat, DepthFormat};

verus! {

/// The two shader programs of the scene.
#[derive(Clone, Copy, Debug, PartialEq, Eq, Structural)]
pub enum ShaderProgram {
    /// Lit, textured, instanced geometry.
    Color,
    /// The gizmo that marks the light.
    Light,
}

/// The shapes of vertex data that a pipeline can take.
#[derive(Clone, Copy, Debug, PartialEq, Eq, Structural)]
pub enum VertexLayout {
    /// One record per vertex of a mesh.
    ModelVertex,
    /// One transform record per instance.
    InstanceRaw,
}

/// How often a vertex buffer advances.
#[derive(Clone, Copy, Debug, PartialEq, Eq, Structural)]
pub enum StepMode {
    Vertex,
    Instance,
}

/// The kinds of resource sets that a pipeline can have bound.
#[derive(Clone, Copy, Debug, PartialEq, Eq, Structural)]
pub enum BindGroupLayout {
    /// A texture and its sampler.
    Texture,
    /// The camera's uniform.
    Camera,
    /// The light's uniform.
    Light,
}

/// How vertices are joined into primitives.
#[derive(Clone, Copy, Debug, PartialEq, Eq, Structural)]
pub enum PrimitiveTopology {
    PointList,
    LineList,
    LineStrip,
    TriangleList,
    TriangleStrip,
}

/// The winding of a triangle that faces the viewer.
#[derive(Clone, Copy, Debug, PartialEq, Eq, Structural)]
pub enum FrontFace {
    Ccw,
    Cw,
}

/// A side of a triangle.
#[derive(Clone, Copy, Debug, PartialEq, Eq, Structural)]
pub enum Face {
    Front,
    Back,
}

/// How a triangle is rasterised.
#[derive(Clone, Copy, Debug, PartialEq, Eq, Structural)]
pub enum PolygonMode {
    Fill,
    Line,
    Point,
}

/// The test that a fragment's depth has to pass against the stored depth.
#[derive(Clone, Copy, Debug, PartialEq, Eq, Structural)]
pub enum CompareFunction {
    Never,
    Less,
    Equal,
    LessEqual,
    Greater,
    NotEqual,
    GreaterEqual,
    Always,
}

/// How a pipeline uses the depth attachment.
#[derive(Clone, Copy, Debug, PartialEq, Eq, Structural)]
pub struct DepthStencilState {
    pub format: DepthFormat,
    pub depth_write_enabled: bool,
    pub depth_compare: CompareFunction,
}

/// The fixed-function settings of a pipeline.
#[derive(Clone, Copy, Debug, PartialEq, Eq, Structural)]
pub struct PrimitiveState {
    pub topology: PrimitiveTopology,
    pub front_face: FrontFace,
    pub cull_mode: Option<Face>,
    pub polygon_mode: PolygonMode,
}

/// A described pipeline.
#[derive(Debug, PartialEq, Eq)]
pub struct RenderPipeline {
    pub shader: ShaderProgram,
    pub bind_group_layouts: Vec<BindGroupLayout>,
    pub vertex_layouts: Vec<VertexLayout>,
    pub color_format: ColorFormat,
    pub primitive: PrimitiveState,
    pub depth_stencil: Option<DepthStencilState>,
    pub sample_count: u32,
}

/// A described pipeline, as a value.
pub struct RenderPipelineView {
    pub shader: ShaderProgram,
    pub bind_group_layouts: Seq<BindGroupLayout>,
    pub vertex_layouts: Seq<VertexLayout>,
    pub color_format: ColorFormat,
    pub primitive: PrimitiveState,
    pub depth_stencil: Option<DepthStencilState>,
    pub sample_count: u32,
}

impl View for RenderPipeline {
    type V = RenderPipelineView;

    open spec fn view(&self) -> RenderPipelineView {
        RenderPipelineView {
            shader: self.shader,
            bind_group_layouts: self.bind_group_layouts@,
            vertex_layouts: self.vertex_layouts@,
            color_format: self.color_format,
            primitive: self.primitive,
            depth_stencil: self.depth_stencil,
            sample_count: self.sample_count,
        }
    }
}

impl VertexLayout {
    /// Mesh vertices advance per vertex, instance records per instance.
    pub open spec fn spec_step_mode(self) -> StepMode {
        match self {
            VertexLayout::ModelVertex => StepMode::Vertex,
            VertexLayout::InstanceRaw => StepMode::Instance,
        }
    }

    /// How often a buffer of this shape advances.
    pub fn step_mode(&self) -> (mode: StepMode)
        ensures
            mode == self.spec_step_mode(),
    {
        match self {
            VertexLayout::ModelVertex => StepMode::Vertex,
            VertexLayout::InstanceRaw => StepMode::Instance,
        }
    }
}

/// The settings every pipeline shares: filled triangle lists, front faces
/// wound counter-clockwise, back faces culled.
pub open spec fn fixed_primitive() -> PrimitiveState {
    PrimitiveState {
        topology: PrimitiveTopology::TriangleList,
        front_face: FrontFace::Ccw,
        cull_mode: Some(Face::Back),
        polygon_mode: PolygonMode::Fill,
    }
}

/// With a depth format, a pipeline tests depth with "less" and writes it;
/// without one, it does not use depth.
pub open spec fn depth_state_for(depth_format: Option<DepthFormat>) -> Option<DepthStencilState> {
    match depth_format {
        Some(format) => Some(
            DepthStencilState {
                format,
                depth_write_enabled: true,
                depth_compare: CompareFunction::Less,
            },
        ),
        None => None,
    }
}

/// The pipeline described by its inputs: single-sampled, with the fixed
/// primitive settings and the depth state that the depth format calls for.
pub open spec fn described_pipeline(
    layout: Seq<BindGroupLayout>,
    color_format: ColorFormat,
    depth_format: Option<DepthFormat>,
    vertex_layouts: Seq<VertexLayout>,
    shader: ShaderProgram,
) -> RenderPipelineView {
    RenderPipelineView {
        shader,
        bind_group_layouts: layout,
        vertex_layouts,
        color_format,
        primitive: fixed_primitive(),
        depth_stencil: depth_state_for(depth_format),
        sample_count: 1,
    }
}

/// Describes the pipeline for a shader, the resource sets it binds, the
/// shapes of its vertex buffers, and the formats of its targets.
pub fn create_render_pipeline(
    layout: Vec<BindGroupLayout>,
    color_format: ColorFormat,
    depth_format: Option<DepthFormat>,
    vertex_layouts: Vec<VertexLayout>,
    shader: ShaderProgram,
) -> (pipeline: RenderPipeline)
    ensures
        pipeline@ == described_pipeline(layout@, color_format, depth_format, vertex_layouts@, shader),
{
    let depth_stencil = match depth_format {
        Some(format) => Some(
            DepthStencilState {
                format,
                depth_write_enabled: true,
                depth_compare: CompareFunction::Less,
            },
        ),
        None => None,
    };
    RenderPipeline {
        shader,
        bind_group_layouts: layout,
        vertex_layouts,
        color_format,
        primitive: PrimitiveState {
            topology: PrimitiveTopology::TriangleList,
            front_face: FrontFace::Ccw,
            cull_mode: Some(Face::Back),
            polygon_mode: PolygonMode::Fill,
        },
        depth_stencil,
        sample_count: 1,
    }
}

} // verus!
