use scene_render::camera::AspectRatio;
use scene_render::color_pass::{ColorPass, NUM_INSTANCES_PER_ROW, ROTATION_SPEED, SPACE_BETWEEN};
use scene_render::command::{Command, LoadOp, Pipeline, Upload, VertexBuffer};
use scene_render::input::{InputEvent, Key};
use scene_render::instance::InstanceSet;
use scene_render::model::{Mesh, Model};
use scene_render::render_pipeline::{BindGroupLayout, ShaderProgram, VertexLayout};
use scene_render::surface::{ColorFormat, DepthFormat, DepthTexture, PhysicalSize, PresentMode};
use scene_render::surface::SurfaceConfiguration;

fn config(width: u32, height: u32) -> SurfaceConfiguration {
    SurfaceConfiguration {
        format: ColorFormat::Rgba8UnormSrgb,
        width,
        height,
        present_mode: PresentMode::Mailbox,
    }
}

fn pass_without_meshes() -> ColorPass<u32> {
    ColorPass::new(&config(640, 480), Model::new(vec![], 0).unwrap(), 0x00ff00)
}

#[test]
fn the_scene_constants() {
    assert_eq!(NUM_INSTANCES_PER_ROW, 10);
    assert_eq!(SPACE_BETWEEN, 3);
    assert_eq!(ROTATION_SPEED, 2);
}

#[test]
fn a_new_pass_holds_the_generated_grid() {
    let pass = pass_without_meshes();
    let grid = InstanceSet::generate(10, 3);
    assert_eq!(pass.instances().len(), 100);
    for i in 0..100 {
        assert_eq!(pass.instances().get(i), grid.get(i));
    }
    assert_eq!(pass.size(), PhysicalSize { width: 640, height: 480 });
    assert_eq!(pass.camera_resources().camera.aspect, AspectRatio { width: 640, height: 480 });
    assert!(!pass.space_state_on());
    assert_eq!(pass.object_rotation().value(), 0);
    assert_eq!(pass.light_resources().orbit.value(), 0);
    assert_eq!(*pass.clear_color(), 0x00ff00);
    assert_eq!(pass.model().mesh_count(), 0);
}

#[test]
fn a_new_pass_describes_its_two_pipelines() {
    let pass = pass_without_meshes();
    let render = pass.render_pipeline();
    assert_eq!(render.shader, ShaderProgram::Color);
    assert_eq!(
        render.bind_group_layouts,
        vec![BindGroupLayout::Texture, BindGroupLayout::Camera, BindGroupLayout::Light]
    );
    assert_eq!(render.vertex_layouts, vec![VertexLayout::ModelVertex, VertexLayout::InstanceRaw]);
    assert_eq!(render.color_format, ColorFormat::Rgba8UnormSrgb);
    assert_eq!(render.depth_stencil.unwrap().format, DepthFormat::Depth32Float);
    let light = pass.light_render_pipeline();
    assert_eq!(light.shader, ShaderProgram::Light);
    assert_eq!(light.bind_group_layouts, vec![BindGroupLayout::Camera, BindGroupLayout::Light]);
    assert_eq!(light.vertex_layouts, vec![VertexLayout::ModelVertex]);
    assert_eq!(light.color_format, ColorFormat::Rgba8UnormSrgb);
    assert_eq!(light.depth_stencil, render.depth_stencil);
    assert_eq!(light.primitive, render.primitive);
}

#[test]
fn pass_resize_touches_only_aspect_and_size() {
    let mut pass = pass_without_meshes();
    pass.input(&InputEvent::Keyboard { key: Key::W, pressed: true });
    pass.update();
    pass.resize(&config(100, 50));
    assert_eq!(pass.camera_resources().camera.aspect, AspectRatio { width: 100, height: 50 });
    assert_eq!(pass.size(), PhysicalSize { width: 100, height: 50 });
    assert!(pass.camera_resources().camera_controller.is_forward_pressed);
    assert_eq!(pass.instances().get(0).unwrap().rotation.yaw.value(), 2);
    assert_eq!(pass.light_resources().orbit.value(), 1);
    assert_eq!(pass.render_pipeline().color_format, ColorFormat::Rgba8UnormSrgb);
}

#[test]
fn uploads_name_the_three_buffers() {
    let pass = pass_without_meshes();
    assert_eq!(
        pass.uploads(),
        vec![Upload::CameraUniform, Upload::InstanceBuffer { bytes: 10_000 }, Upload::LightUniform]
    );
}

#[test]
fn passes_share_the_depth_attachment() {
    let pass = pass_without_meshes();
    let depth_texture = DepthTexture { width: 640, height: 480 };
    assert_eq!(
        pass.render(&depth_texture),
        vec![
            Command::BeginRenderPass { color: LoadOp::Load, depth: LoadOp::Load, depth_texture },
            Command::SetVertexBuffer { slot: 1, buffer: VertexBuffer::Instances },
            Command::SetPipeline(Pipeline::Render),
            Command::EndRenderPass,
            Command::BeginRenderPass { color: LoadOp::Load, depth: LoadOp::Load, depth_texture },
            Command::SetPipeline(Pipeline::Light),
            Command::EndRenderPass,
        ]
    );
}

#[test]
fn every_mesh_is_drawn_in_both_passes() {
    let model = Model::new(
        vec![
            Mesh { num_elements: 36, material: 0 },
            Mesh { num_elements: 12, material: 1 },
            Mesh { num_elements: 3, material: 0 },
        ],
        2,
    )
    .unwrap();
    let pass: ColorPass<u32> = ColorPass::new(&config(640, 480), model, 0);
    let commands = pass.render(&DepthTexture { width: 640, height: 480 });
    let draws: Vec<&Command> =
        commands.iter().filter(|c| matches!(c, Command::DrawIndexed { .. })).collect();
    assert_eq!(
        draws,
        vec![
            &Command::DrawIndexed { indices: 36, instances: 100 },
            &Command::DrawIndexed { indices: 12, instances: 100 },
            &Command::DrawIndexed { indices: 3, instances: 100 },
            &Command::DrawIndexed { indices: 36, instances: 1 },
            &Command::DrawIndexed { indices: 12, instances: 1 },
            &Command::DrawIndexed { indices: 3, instances: 1 },
        ]
    );
    assert_eq!(commands.len(), 3 + 3 * 6 + 3 + 3 * 5 + 1);
}

#[test]
fn set_clear_color_touches_only_the_colour() {
    let mut pass = pass_without_meshes();
    pass.set_clear_color(7);
    assert_eq!(*pass.clear_color(), 7);
    assert_eq!(pass.instances().len(), 100);
    assert_eq!(pass.size(), PhysicalSize { width: 640, height: 480 });
}
