use scene_render::surface::{classify, ColorFormat, ConfigError, DepthFormat, DepthTexture};
use scene_render::surface::{FrameError, GraphicsContext, PresentMode, SurfaceConfiguration};
use scene_render::surface::{SurfaceFault, SurfaceState};

fn configured(width: u32, height: u32) -> GraphicsContext {
    let mut context = GraphicsContext::new(ColorFormat::Bgra8UnormSrgb, PresentMode::Mailbox);
    assert!(context.configure(width, height).is_ok());
    context
}

#[test]
fn faults_fall_into_three_classes() {
    assert_eq!(classify(SurfaceFault::Lost), FrameError::Lost);
    assert_eq!(classify(SurfaceFault::OutOfMemory), FrameError::OutOfMemory);
    assert_eq!(classify(SurfaceFault::Timeout), FrameError::Transient);
    assert_eq!(classify(SurfaceFault::Outdated), FrameError::Transient);
}

#[test]
fn a_new_surface_is_unconfigured() {
    let context = GraphicsContext::new(ColorFormat::Rgba8Unorm, PresentMode::Fifo);
    assert_eq!(context.state, SurfaceState::Unconfigured);
    assert_eq!(context.config.format, ColorFormat::Rgba8Unorm);
    assert_eq!(context.config.present_mode, PresentMode::Fifo);
}

#[test]
fn first_configure_makes_the_surface_configured() {
    let mut context = GraphicsContext::new(ColorFormat::Bgra8UnormSrgb, PresentMode::Mailbox);
    let applied = context.configure(800, 600);
    assert_eq!(
        applied,
        Ok(SurfaceConfiguration {
            format: ColorFormat::Bgra8UnormSrgb,
            width: 800,
            height: 600,
            present_mode: PresentMode::Mailbox,
        })
    );
    assert_eq!(context.state, SurfaceState::Configured { width: 800, height: 600 });
    assert_eq!(context.config, applied.unwrap());
}

#[test]
fn configure_again_takes_the_new_size() {
    let mut context = configured(800, 600);
    assert!(context.configure(1024, 768).is_ok());
    assert_eq!(context.state, SurfaceState::Configured { width: 1024, height: 768 });
    assert_eq!(context.config.width, 1024);
    assert_eq!(context.config.height, 768);
    assert_eq!(context.config.format, ColorFormat::Bgra8UnormSrgb);
}

#[test]
fn zero_width_or_height_is_turned_down_without_a_change() {
    for (width, height) in [(0u32, 600u32), (800, 0), (0, 0)] {
        let mut context = configured(800, 600);
        let before = context;
        assert_eq!(context.configure(width, height), Err(ConfigError::ZeroDimension));
        assert_eq!(context, before);
    }
    let mut fresh = GraphicsContext::new(ColorFormat::Bgra8Unorm, PresentMode::Immediate);
    let before = fresh;
    assert_eq!(fresh.configure(0, 1), Err(ConfigError::ZeroDimension));
    assert_eq!(fresh, before);
}

#[test]
fn an_image_leaves_the_surface_configured() {
    let mut context = configured(800, 600);
    let before = context;
    assert_eq!(context.acquire_frame(Ok(())), Ok(()));
    assert_eq!(context, before);
}

#[test]
fn a_lost_surface_is_configured_again_with_the_same_size() {
    let mut context = configured(800, 600);
    assert_eq!(context.acquire_frame(Err(SurfaceFault::Lost)), Err(FrameError::Lost));
    assert_eq!(context.state, SurfaceState::Lost);
    assert_eq!(context.config.width, 800);
    assert_eq!(context.config.height, 600);
    // Until then it gives no image, whatever the platform says.
    assert_eq!(context.acquire_frame(Ok(())), Err(FrameError::Lost));
    let (width, height) = (context.config.width, context.config.height);
    assert!(context.configure(width, height).is_ok());
    assert_eq!(context.state, SurfaceState::Configured { width: 800, height: 600 });
    assert_eq!(context.acquire_frame(Ok(())), Ok(()));
}

#[test]
fn out_of_memory_is_the_end() {
    let mut context = configured(800, 600);
    assert_eq!(context.acquire_frame(Err(SurfaceFault::OutOfMemory)), Err(FrameError::OutOfMemory));
    assert_eq!(context.state, SurfaceState::OutOfMemory);
    let before = context;
    assert_eq!(context.configure(800, 600), Err(ConfigError::OutOfMemory));
    assert_eq!(context.configure(0, 600), Err(ConfigError::ZeroDimension));
    assert_eq!(context.acquire_frame(Ok(())), Err(FrameError::OutOfMemory));
    assert_eq!(context.acquire_frame(Err(SurfaceFault::Timeout)), Err(FrameError::OutOfMemory));
    assert_eq!(context, before);
}

#[test]
fn timeout_and_outdated_change_nothing() {
    for fault in [SurfaceFault::Timeout, SurfaceFault::Outdated] {
        let mut context = configured(800, 600);
        let before = context;
        assert_eq!(context.acquire_frame(Err(fault)), Err(FrameError::Transient));
        assert_eq!(context, before);
    }
}

#[test]
fn an_unconfigured_surface_counts_as_lost() {
    let mut context = GraphicsContext::new(ColorFormat::Bgra8UnormSrgb, PresentMode::Mailbox);
    let before = context;
    assert_eq!(context.acquire_frame(Ok(())), Err(FrameError::Lost));
    assert_eq!(context, before);
}

#[test]
fn the_depth_texture_has_the_size_of_the_surface() {
    let config = SurfaceConfiguration {
        format: ColorFormat::Bgra8UnormSrgb,
        width: 640,
        height: 480,
        present_mode: PresentMode::Mailbox,
    };
    assert_eq!(DepthTexture::create_depth_texture(&config), DepthTexture { width: 640, height: 480 });
    assert_eq!(DepthTexture::depth_format(), DepthFormat::Depth32Float);
}
