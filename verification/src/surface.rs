//! The drawable surface: its configuration, its lifecycle, and the three
//! ways in which asking it for the next image can fail.

use vstd::prelude::*;

verus! {

/// Pixel formats a surface can ask for.
#[derive(Clone, Copy, Debug, PartialEq, Eq, Structural)]
pub enum ColorFormat {
    Bgra8Unorm,
    Bgra8UnormSrgb,
    Rgba8Unorm,
    Rgba8UnormSrgb,
}

/// Formats of a depth attachment.
#[derive(Clone, Copy, Debug, PartialEq, Eq, Structural)]
pub enum DepthFormat {
    Depth32Float,
    Depth24Plus,
    Depth24PlusStencil8,
}

/// How finished images reach the screen.
#[derive(Clone, Copy, Debug, PartialEq, Eq, Structural)]
pub enum PresentMode {
    Immediate,
    Mailbox,
    Fifo,
}

/// A size in physical pixels.
#[derive(Clone, Copy, Debug, PartialEq, Eq, Structural)]
pub struct PhysicalSize {
    pub width: u32,
    pub height: u32,
}

/// What a surface is configured with. It is always used as a render
/// attachment.
#[derive(Clone, Copy, Debug, PartialEq, Eq, Structural)]
pub struct SurfaceConfiguration {
    pub format: ColorFormat,
    pub width: u32,
    pub height: u32,
    pub present_mode: PresentMode,
}

/// Where a surface is in its life.
#[derive(Clone, Copy, Debug, PartialEq, Eq, Structural)]
pub enum SurfaceState {
    /// Never configured.
    Unconfigured,
    /// Configured with this size.
    Configured { width: u32, height: u32 },
    /// The platform took the surface's images away; it has to be configured
    /// again, with the same size, before it gives another.
    Lost,
    /// The device ran out of memory. Nothing leads out of this state.
    OutOfMemory,
}

/// What the platform reports when it gives no image.
#[derive(Clone, Copy, Debug, PartialEq, Eq, Structural)]
pub enum SurfaceFault {
    Timeout,
    Outdated,
    Lost,
    OutOfMemory,
}

/// Why a frame could not be acquired, by what the caller has to do about it.
#[derive(Clone, Copy, Debug, PartialEq, Eq, Structural)]
pub enum FrameError {
    /// Configure the surface again and retry this frame.
    Lost,
    /// Stop rendering for good.
    OutOfMemory,
    /// Skip this frame and try again on the next one, without configuring.
    Transient,
}

/// Why a configuration was turned down.
#[derive(Clone, Copy, Debug, PartialEq, Eq, Structural)]
pub enum ConfigError {
    /// The width or the height was zero.
    ZeroDimension,
    /// The surface is out of memory and takes no configuration any more.
    OutOfMemory,
}

/// The depth attachment, by its size. It is made anew with the surface's
/// size whenever that changes.
#[derive(Clone, Copy, Debug, PartialEq, Eq, Structural)]
pub struct DepthTexture {
    pub width: u32,
    pub height: u32,
}

/// The surface with its last configuration.
#[derive(Clone, Copy, Debug, PartialEq, Eq, Structural)]
pub struct GraphicsContext {
    pub state: SurfaceState,
    pub config: SurfaceConfiguration,
}

/// What the caller has to do about a fault: a lost surface is configured
/// again, an exhausted device ends rendering, anything else passes by itself.
pub open spec fn spec_classify(fault: SurfaceFault) -> FrameError {
    match fault {
        SurfaceFault::Lost => FrameError::Lost,
        SurfaceFault::OutOfMemory => FrameError::OutOfMemory,
        SurfaceFault::Timeout => FrameError::Transient,
        SurfaceFault::Outdated => FrameError::Transient,
    }
}

/// What the caller has to do about a fault.
pub fn classify(fault: SurfaceFault) -> (error: FrameError)
    ensures
        error == spec_classify(fault),
{
    match fault {
        SurfaceFault::Lost => FrameError::Lost,
        SurfaceFault::OutOfMemory => FrameError::OutOfMemory,
        SurfaceFault::Timeout => FrameError::Transient,
        SurfaceFault::Outdated => FrameError::Transient,
    }
}

impl SurfaceConfiguration {
    /// Neither dimension is zero.
    pub open spec fn wf(self) -> bool {
        self.width > 0 && self.height > 0
    }

    /// The size of the surface.
    pub open spec fn size(self) -> PhysicalSize {
        PhysicalSize { width: self.width, height: self.height }
    }
}

impl DepthTexture {
    /// The format of the depth attachment.
    pub open spec fn format() -> DepthFormat {
        DepthFormat::Depth32Float
    }

    /// The depth attachment for a surface of this configuration.
    pub open spec fn sized_to(config: SurfaceConfiguration) -> DepthTexture {
        DepthTexture { width: config.width, height: config.height }
    }

    /// The depth attachment for a surface of this configuration.
    pub fn create_depth_texture(config: &SurfaceConfiguration) -> (texture: DepthTexture)
        ensures
            texture == DepthTexture::sized_to(*config),
    {
        DepthTexture { width: config.width, height: config.height }
    }

    /// The format of the depth attachment.
    pub fn depth_format() -> (format: DepthFormat)
        ensures
            format == DepthTexture::format(),
    {
        DepthFormat::Depth32Float
    }
}

impl GraphicsContext {
    /// While configured, the surface has the size of its configuration, and
    /// neither dimension is zero.
    pub open spec fn wf(self) -> bool {
        self.state matches SurfaceState::Configured { width, height } ==> {
            &&& width == self.config.width
            &&& height == self.config.height
            &&& self.config.wf()
        }
    }

    /// Whether a request to configure with this size is taken.
    pub open spec fn accepts(self, width: u32, height: u32) -> bool {
        width > 0 && height > 0 && self.state != SurfaceState::OutOfMemory
    }

    /// The context after a request to configure with this size: configured
    /// with it, format and present mode kept, where the request is taken;
    /// unchanged where it is not.
    pub open spec fn configured(self, width: u32, height: u32) -> GraphicsContext {
        if self.accepts(width, height) {
            GraphicsContext {
                state: SurfaceState::Configured { width, height },
                config: SurfaceConfiguration { width, height, ..self.config },
            }
        } else {
            self
        }
    }

    /// What a request to configure with this size answers.
    pub open spec fn configure_result(self, width: u32, height: u32) -> Result<
        SurfaceConfiguration,
        ConfigError,
    > {
        if width == 0 || height == 0 {
            Err(ConfigError::ZeroDimension)
        } else if self.state == SurfaceState::OutOfMemory {
            Err(ConfigError::OutOfMemory)
        } else {
            Ok(SurfaceConfiguration { width, height, ..self.config })
        }
    }

    /// What the platform's answer to a request for the next image means for
    /// the caller. A surface that is not configured cannot give an image,
    /// whatever the platform said: it counts as lost, or as out of memory
    /// where it is.
    pub open spec fn acquire_result(self, outcome: Result<(), SurfaceFault>) -> Result<
        (),
        FrameError,
    > {
        match self.state {
            SurfaceState::Configured { .. } => match outcome {
                Ok(_) => Ok(()),
                Err(fault) => Err(spec_classify(fault)),
            },
            SurfaceState::OutOfMemory => Err(FrameError::OutOfMemory),
            _ => Err(FrameError::Lost),
        }
    }

    /// The context after the platform's answer: a configured surface that
    /// is reported lost or out of memory becomes so; nothing else changes.
    pub open spec fn acquired(self, outcome: Result<(), SurfaceFault>) -> GraphicsContext {
        match self.state {
            SurfaceState::Configured { .. } => match outcome {
                Err(SurfaceFault::Lost) => GraphicsContext { state: SurfaceState::Lost, ..self },
                Err(SurfaceFault::OutOfMemory) => GraphicsContext {
                    state: SurfaceState::OutOfMemory,
                    ..self
                },
                _ => self,
            },
            _ => self,
        }
    }

    /// A surface that has not been configured yet.
    pub fn new(format: ColorFormat, present_mode: PresentMode) -> (context: GraphicsContext)
        ensures
            context == (GraphicsContext {
                state: SurfaceState::Unconfigured,
                config: SurfaceConfiguration { format, width: 0, height: 0, present_mode },
            }),
            context.wf(),
    {
        GraphicsContext {
            state: SurfaceState::Unconfigured,
            config: SurfaceConfiguration { format, width: 0, height: 0, present_mode },
        }
    }

    /// Configures the surface with the given size, keeping its format and
    /// present mode, and hands back the configuration to apply. A zero
    /// dimension is turned down, and so is any request once the surface is
    /// out of memory; the context is then left as it was.
    pub fn configure(&mut self, width: u32, height: u32) -> (result: Result<
        SurfaceConfiguration,
        ConfigError,
    >)
        ensures
            result == old(self).configure_result(width, height),
            *final(self) == old(self).configured(width, height),
            result.is_ok() <==> old(self).accepts(width, height),
            old(self).wf() ==> final(self).wf(),
    {
        if width == 0 || height == 0 {
            return Err(ConfigError::ZeroDimension);
        }
        match self.state {
            SurfaceState::OutOfMemory => {
                return Err(ConfigError::OutOfMemory);
            },
            _ => {},
        }
        self.config.width = width;
        self.config.height = height;
        self.state = SurfaceState::Configured { width, height };
        Ok(self.config)
    }

    /// Takes the platform's answer to a request for the next image, and says
    /// what it means for the caller.
    pub fn acquire_frame(&mut self, outcome: Result<(), SurfaceFault>) -> (result: Result<
        (),
        FrameError,
    >)
        ensures
            result == old(self).acquire_result(outcome),
            *final(self) == old(self).acquired(outcome),
            old(self).wf() ==> final(self).wf(),
    {
        match self.state {
            SurfaceState::Configured { .. } => match outcome {
                Ok(_) => Ok(()),
                Err(fault) => {
                    let error = classify(fault);
                    match error {
                        FrameError::Lost => {
                            self.state = SurfaceState::Lost;
                        },
                        FrameError::OutOfMemory => {
                            self.state = SurfaceState::OutOfMemory;
                        },
                        FrameError::Transient => {},
                    }
                    Err(error)
                },
            },
            SurfaceState::OutOfMemory => Err(FrameError::OutOfMemory),
            _ => Err(FrameError::Lost),
        }
    }
}

} // verus!
