//! The frame loop's state: the surface, the depth attachment, the scene
//! pass, and where the current frame stands.
//!
//! The loop itself runs outside: it asks for frames, talks to the platform
//! and reports back. Every report is an event; `State::render` takes it,
//! moves the state on, and answers with what to do next.

use vstd::prelude::*;
use crate::camera::AspectRatio;
use crate::color_pass::{ColorPass, ColorPassView};
use crate::command::{Command, CommandEncoder, CommandEncoderView, LoadOp, Upload};
use crate::input::{InputEvent, LoopControl};
use crate::model::{Mesh, Model};
use crate::surface::{ColorFormat, ConfigError, DepthTexture, FrameError, GraphicsContext};
use crate::surface::{PhysicalSize, PresentMode, SurfaceConfiguration, SurfaceFault, SurfaceState};

verus! {

/// Where the current frame stands.
#[derive(Clone, Copy, Debug, PartialEq, Eq, Structural)]
pub enum FramePhase {
    /// No frame is under way.
    Idle,
    /// The surface is being configured; `retry` says that this is the one
    /// recovery from a lost surface that a frame is allowed.
    Reconfiguring { retry: bool },
    /// The next image has been asked for; `retried` says that the surface
    /// was already lost once in this frame.
    AcquiringFrame { retried: bool },
    /// The frame's commands are being recorded and submitted.
    Rendering,
    /// The frame has been presented.
    Presented,
}

/// What the loop reports.
#[derive(Clone, Copy, Debug, PartialEq, Eq, Structural)]
pub enum FrameEvent {
    /// A new frame is due.
    FrameRequested,
    /// The surface has been configured as directed.
    Reconfigured,
    /// The platform gave the next image.
    Acquired,
    /// The platform gave no image.
    AcquireFailed(SurfaceFault),
    /// The frame's commands were submitted and the image presented.
    Presented,
}

/// What the loop has to do next.
#[derive(Debug, PartialEq, Eq)]
pub enum Directive {
    /// Configure the surface with `config`, make the depth attachment anew
    /// where one is given, and report `Reconfigured`.
    Reconfigure { config: SurfaceConfiguration, depth_texture: Option<DepthTexture> },
    /// Ask the platform for the next image and report what it said.
    Acquire,
    /// Record these commands, submit them, present the image, and report
    /// `Presented`.
    Draw(CommandEncoder),
    /// Give the frame up; nothing was recorded, nothing is submitted.
    Skip,
    /// End the loop for good.
    Fatal,
    /// Nothing to do until the next event.
    Wait,
}

/// What the loop has to do next, as a value.
pub enum DirectiveView {
    Reconfigure { config: SurfaceConfiguration, depth_texture: Option<DepthTexture> },
    Acquire,
    Draw(CommandEncoderView),
    Skip,
    Fatal,
    Wait,
}

impl View for Directive {
    type V = DirectiveView;

    open spec fn view(&self) -> DirectiveView {
        match self {
            Directive::Reconfigure { config, depth_texture } => DirectiveView::Reconfigure {
                config: *config,
                depth_texture: *depth_texture,
            },
            Directive::Acquire => DirectiveView::Acquire,
            Directive::Draw(encoder) => DirectiveView::Draw(encoder@),
            Directive::Skip => DirectiveView::Skip,
            Directive::Fatal => DirectiveView::Fatal,
            Directive::Wait => DirectiveView::Wait,
        }
    }
}

/// The frame loop's state. `C` is the type of a colour.
pub struct State<C> {
    context: GraphicsContext,
    physical_size: PhysicalSize,
    color_pass: ColorPass<C>,
    depth_texture: DepthTexture,
    phase: FramePhase,
    resized: bool,
    frames: u64,
}

/// The frame loop's state, as a value.
pub struct StateView<C> {
    /// The surface and its configuration.
    pub context: GraphicsContext,
    /// The window's size.
    pub physical_size: PhysicalSize,
    /// The scene pass.
    pub color_pass: ColorPassView<C>,
    /// The depth attachment.
    pub depth_texture: DepthTexture,
    /// Where the current frame stands.
    pub phase: FramePhase,
    /// Whether the surface took a new size that the platform has not been
    /// told of yet.
    pub resized: bool,
    /// How many frames have been presented; it stops counting at `u64::MAX`.
    pub frames: u64,
}

/// The label under which a frame's commands are recorded.
pub open spec fn frame_label() -> Seq<char> {
    "Render Pass"@
}

/// What a frame records: a pass that clears colour and depth, the writes of
/// the frame's buffers, and the two passes that draw the scene.
pub open spec fn frame_commands<C>(color_pass: ColorPassView<C>, depth_texture: DepthTexture) -> Seq<
    Command,
> {
    seq![
        Command::BeginRenderPass { color: LoadOp::Clear, depth: LoadOp::Clear, depth_texture },
        Command::EndRenderPass,
        Command::WriteBuffer(color_pass.uploads()[0]),
        Command::WriteBuffer(color_pass.uploads()[1]),
        Command::WriteBuffer(color_pass.uploads()[2]),
    ] + color_pass.passes(depth_texture)
}

/// The frame count after one more frame.
pub open spec fn next_frame_count(frames: u64) -> u64 {
    if frames < u64::MAX {
        (frames + 1) as u64
    } else {
        frames
    }
}

impl<C> StateView<C> {
    /// The surface has been configured, with a size that has no zero
    /// dimension; the window, the depth attachment and the scene pass have
    /// that size; the scene pass is well-formed; an image is asked for, and
    /// drawn to, only while the surface is configured; and a surface that
    /// is out of memory is not configured again.
    pub open spec fn wf(self) -> bool {
        &&& self.context.wf()
        &&& self.context.config.wf()
        &&& self.context.state != SurfaceState::Unconfigured
        &&& (self.phase is AcquiringFrame || self.phase is Rendering)
            ==> self.context.state is Configured
        &&& self.phase is Reconfiguring ==> self.context.state != SurfaceState::OutOfMemory
        &&& self.physical_size == self.context.config.size()
        &&& self.depth_texture == DepthTexture::sized_to(self.context.config)
        &&& self.color_pass.size == self.context.config.size()
        &&& self.color_pass.wf()
    }

    /// The state right after start-up, for a window of this size.
    pub open spec fn initial(
        width: u32,
        height: u32,
        format: ColorFormat,
        meshes: Seq<Mesh>,
        materials: int,
        clear_color: C,
    ) -> StateView<C> {
        let config = SurfaceConfiguration { format, width, height, present_mode: PresentMode::Mailbox };
        StateView {
            context: GraphicsContext { state: SurfaceState::Configured { width, height }, config },
            physical_size: config.size(),
            color_pass: ColorPassView::initial(config, meshes, materials, clear_color),
            depth_texture: DepthTexture::sized_to(config),
            phase: FramePhase::Idle,
            resized: false,
            frames: 0,
        }
    }

    /// The state after the window took the size `width` by `height`. Where
    /// the surface accepts the size, everything that depends on it follows
    /// at once: the configuration, the window's size, the camera's aspect
    /// ratio and the depth attachment; and the platform is due to be told.
    /// Where it does not, the state stays as it is.
    pub open spec fn after_resize(self, width: u32, height: u32) -> StateView<C> {
        if self.context.accepts(width, height) {
            let context = self.context.configured(width, height);
            StateView {
                context,
                physical_size: PhysicalSize { width, height },
                color_pass: self.color_pass.after_resize(context.config),
                depth_texture: DepthTexture::sized_to(context.config),
                resized: true,
                ..self
            }
        } else {
            self
        }
    }

    /// The state after the scene pass saw the event.
    pub open spec fn after_input(self, event: InputEvent) -> StateView<C> {
        StateView { color_pass: self.color_pass.after_input(event), ..self }
    }

    /// The state after a window event: a new size is taken as by `after_resize`,
    /// and the scene pass sees every event.
    pub open spec fn after_window_event(self, event: InputEvent) -> StateView<C> {
        match event.spec_new_size() {
            Some((width, height)) => self.after_resize(width, height).after_input(event),
            None => self.after_input(event),
        }
    }

    /// The state with the scene moved one frame on.
    pub open spec fn updated(self) -> StateView<C> {
        StateView { color_pass: self.color_pass.updated(), ..self }
    }

    /// What a frame records in this state.
    pub open spec fn commands(self) -> Seq<Command> {
        frame_commands(self.color_pass, self.depth_texture)
    }

    /// Whether the platform has to configure the surface before it can give
    /// an image: a new size is waiting, or the surface is not configured.
    pub open spec fn needs_configure(self) -> bool {
        self.resized || !(self.context.state is Configured)
    }

    /// What the platform's answer to the request for an image means.
    pub open spec fn acquire_result(self, event: FrameEvent) -> Result<(), FrameError> {
        match event {
            FrameEvent::AcquireFailed(fault) => self.context.acquire_result(Err(fault)),
            _ => self.context.acquire_result(Ok(())),
        }
    }

    /// The surface after the platform's answer to the request for an image.
    pub open spec fn acquired_context(self, event: FrameEvent) -> GraphicsContext {
        match event {
            FrameEvent::AcquireFailed(fault) => self.context.acquired(Err(fault)),
            _ => self.context.acquired(Ok(())),
        }
    }

    /// A frame is requested. Between frames: an exhausted surface ends the
    /// loop; a surface that has to be configured is configured first, and
    /// the depth attachment made anew if the size changed; otherwise the
    /// next image is asked for. While a frame is under way the request is
    /// passed over.
    pub open spec fn on_frame_requested(self) -> (StateView<C>, DirectiveView) {
        if !(self.phase is Idle || self.phase is Presented) {
            (self, DirectiveView::Wait)
        } else if self.context.state is OutOfMemory {
            (self, DirectiveView::Fatal)
        } else if self.needs_configure() {
            (
                StateView { phase: FramePhase::Reconfiguring { retry: false }, resized: false, ..self },
                DirectiveView::Reconfigure {
                    config: self.context.config,
                    depth_texture: if self.resized {
                        Some(self.depth_texture)
                    } else {
                        None
                    },
                },
            )
        } else {
            (
                StateView { phase: FramePhase::AcquiringFrame { retried: false }, ..self },
                DirectiveView::Acquire,
            )
        }
    }

    /// The surface has been configured as directed: it is configured with
    /// the current size, and the next image is asked for.
    pub open spec fn on_reconfigured(self) -> (StateView<C>, DirectiveView) {
        match self.phase {
            FramePhase::Reconfiguring { retry } => (
                StateView {
                    context: self.context.configured(
                        self.context.config.width,
                        self.context.config.height,
                    ),
                    phase: FramePhase::AcquiringFrame { retried: retry },
                    ..self
                },
                DirectiveView::Acquire,
            ),
            _ => (self, DirectiveView::Wait),
        }
    }

    /// The platform answered the request for an image.
    ///
    /// - An image: the scene moves one frame on and the frame is drawn.
    /// - The surface is lost: the first time in a frame, it is configured
    ///   again with the same size and the image asked for once more; the
    ///   second time, the frame is given up.
    /// - Out of memory: the loop ends.
    /// - Anything else: the frame is given up, and nothing but the phase
    ///   changes.
    pub open spec fn on_acquire(self, event: FrameEvent) -> (StateView<C>, DirectiveView) {
        match self.phase {
            FramePhase::AcquiringFrame { retried } => match self.acquire_result(event) {
                Ok(_) => {
                    let drawn = StateView { phase: FramePhase::Rendering, ..self.updated() };
                    (
                        drawn,
                        DirectiveView::Draw(
                            CommandEncoderView { label: frame_label(), commands: drawn.commands() },
                        ),
                    )
                },
                Err(FrameError::Lost) => if retried {
                    (
                        StateView {
                            context: self.acquired_context(event),
                            phase: FramePhase::Idle,
                            ..self
                        },
                        DirectiveView::Skip,
                    )
                } else {
                    (
                        StateView {
                            context: self.acquired_context(event),
                            phase: FramePhase::Reconfiguring { retry: true },
                            ..self
                        },
                        DirectiveView::Reconfigure {
                            config: self.context.config,
                            depth_texture: None,
                        },
                    )
                },
                Err(FrameError::OutOfMemory) => (
                    StateView {
                        context: self.acquired_context(event),
                        phase: FramePhase::Idle,
                        ..self
                    },
                    DirectiveView::Fatal,
                ),
                Err(FrameError::Transient) => (
                    StateView { phase: FramePhase::Idle, ..self },
                    DirectiveView::Skip,
                ),
            },
            _ => (self, DirectiveView::Wait),
        }
    }

    /// The frame was presented: it is counted.
    pub open spec fn on_presented(self) -> (StateView<C>, DirectiveView) {
        match self.phase {
            FramePhase::Rendering => (
                StateView {
                    phase: FramePhase::Presented,
                    frames: next_frame_count(self.frames),
                    ..self
                },
                DirectiveView::Wait,
            ),
            _ => (self, DirectiveView::Wait),
        }
    }

    /// The state after an event, and what the loop has to do next. An event
    /// that does not belong to the phase the frame is in changes nothing and
    /// is answered with `Wait`.
    pub open spec fn step(self, event: FrameEvent) -> (StateView<C>, DirectiveView) {
        match event {
            FrameEvent::FrameRequested => self.on_frame_requested(),
            FrameEvent::Reconfigured => self.on_reconfigured(),
            FrameEvent::Acquired => self.on_acquire(event),
            FrameEvent::AcquireFailed(_) => self.on_acquire(event),
            FrameEvent::Presented => self.on_presented(),
        }
    }
}

impl<C> View for State<C> {
    type V = StateView<C>;

    closed spec fn view(&self) -> StateView<C> {
        StateView {
            context: self.context,
            physical_size: self.physical_size,
            color_pass: self.color_pass@,
            depth_texture: self.depth_texture,
            phase: self.phase,
            resized: self.resized,
            frames: self.frames,
        }
    }
}

/// Records what a frame draws in this state, under the label `name`.
pub fn create_render_pass<C>(name: &str, render_state: &State<C>) -> (encoder: CommandEncoder)
    ensures
        encoder@ == (CommandEncoderView { label: name@, commands: render_state@.commands() }),
{
    let uploads: Vec<Upload> = render_state.color_pass.uploads();
    let mut commands: Vec<Command> = Vec::new();
    commands.push(
        Command::BeginRenderPass {
            color: LoadOp::Clear,
            depth: LoadOp::Clear,
            depth_texture: render_state.depth_texture,
        },
    );
    commands.push(Command::EndRenderPass);
    commands.push(Command::WriteBuffer(uploads[0]));
    commands.push(Command::WriteBuffer(uploads[1]));
    commands.push(Command::WriteBuffer(uploads[2]));
    let mut passes: Vec<Command> = render_state.color_pass.render(&render_state.depth_texture);
    commands.append(&mut passes);
    proof {
        assert(commands@ =~= render_state@.commands());
    }
    CommandEncoder { label: name.to_owned(), commands }
}

impl<C> State<C> {
    /// The state for a window of this size, a surface of this format, a
    /// loaded model and a first clear colour. A zero dimension is turned
    /// down.
    pub fn new(width: u32, height: u32, format: ColorFormat, model: Model, clear_color: C) -> (result:
        Result<State<C>, ConfigError>)
        ensures
            result.is_ok() <==> (width > 0 && height > 0),
            result matches Err(e) ==> e == ConfigError::ZeroDimension,
            result matches Ok(state) ==> state@ == StateView::initial(
                width,
                height,
                format,
                model.meshes(),
                model.materials(),
                clear_color,
            ) && (model.wf() ==> state@.wf()),
    {
        let mut context = GraphicsContext::new(format, PresentMode::Mailbox);
        match context.configure(width, height) {
            Err(e) => Err(e),
            Ok(config) => {
                let color_pass = ColorPass::new(&config, model, clear_color);
                let depth_texture = DepthTexture::create_depth_texture(&config);
                Ok(
                    State {
                        context,
                        physical_size: PhysicalSize { width, height },
                        color_pass,
                        depth_texture,
                        phase: FramePhase::Idle,
                        resized: false,
                        frames: 0,
                    },
                )
            },
        }
    }

    /// Takes a new window size. A size with a zero dimension is turned
    /// down, and so is any size once the surface is out of memory; the
    /// state then stays exactly as it was. Says whether the size was taken.
    pub fn resize(&mut self, new_size: PhysicalSize) -> (accepted: bool)
        ensures
            accepted == old(self)@.context.accepts(new_size.width, new_size.height),
            (new_size.width == 0 || new_size.height == 0) ==> !accepted,
            final(self)@ == old(self)@.after_resize(new_size.width, new_size.height),
            !accepted ==> final(self)@ == old(self)@,
            accepted ==> {
                &&& final(self)@.context.state == (SurfaceState::Configured {
                    width: new_size.width,
                    height: new_size.height,
                })
                &&& final(self)@.depth_texture == (DepthTexture {
                    width: new_size.width,
                    height: new_size.height,
                })
                &&& final(self)@.color_pass.camera_resources.camera.aspect == (AspectRatio {
                    width: new_size.width,
                    height: new_size.height,
                })
                &&& final(self)@.physical_size == new_size
                &&& final(self)@.resized
            },
            old(self)@.wf() ==> final(self)@.wf(),
    {
        match self.context.configure(new_size.width, new_size.height) {
            Ok(config) => {
                self.physical_size = new_size;
                self.color_pass.resize(&config);
                self.depth_texture = DepthTexture::create_depth_texture(&config);
                self.resized = true;
                true
            },
            Err(_) => false,
        }
    }

    /// Hands the event to the scene pass. Says whether it switched the flag.
    pub fn input(&mut self, event: &InputEvent) -> (toggled: bool)
        ensures
            final(self)@ == old(self)@.after_input(*event),
            toggled == ColorPassView::<C>::toggles(*event),
            old(self)@.wf() ==> final(self)@.wf(),
    {
        self.color_pass.input(event)
    }

    /// Takes a window event: a new size is taken as by `resize`, the scene
    /// pass sees the event, and the answer says whether the loop goes on or
    /// ends, which it does on a close request or when Escape goes down.
    pub fn window_event(&mut self, event: &InputEvent) -> (control: LoopControl)
        ensures
            final(self)@ == old(self)@.after_window_event(*event),
            control == if event.spec_requests_exit() {
                LoopControl::Exit
            } else {
                LoopControl::Continue
            },
            old(self)@.wf() ==> final(self)@.wf(),
    {
        match event.new_size() {
            Some((width, height)) => {
                self.resize(PhysicalSize { width, height });
            },
            None => {},
        }
        self.input(event);
        if event.requests_exit() {
            LoopControl::Exit
        } else {
            LoopControl::Continue
        }
    }

    /// Moves the scene one frame on, and says which buffers have to be
    /// written for it.
    pub fn update(&mut self) -> (uploads: Vec<Upload>)
        ensures
            final(self)@ == old(self)@.updated(),
            uploads@ == final(self)@.color_pass.uploads(),
            old(self)@.wf() ==> final(self)@.wf(),
    {
        self.color_pass.update()
    }

    /// Takes a report from the loop, moves the frame on, and answers with
    /// what the loop has to do next.
    pub fn render(&mut self, event: FrameEvent) -> (directive: Directive)
        ensures
            (final(self)@, directive@) == old(self)@.step(event),
            old(self)@.wf() ==> final(self)@.wf(),
    {
        match event {
            FrameEvent::FrameRequested => self.frame_requested(),
            FrameEvent::Reconfigured => self.reconfigured(),
            FrameEvent::Acquired => self.acquired(event),
            FrameEvent::AcquireFailed(_) => self.acquired(event),
            FrameEvent::Presented => self.presented(),
        }
    }

    /// Sets the colour that the frame is cleared to.
    pub fn set_clear_color(&mut self, color: C)
        ensures
            final(self)@ == (StateView {
                color_pass: ColorPassView { clear_color: color, ..old(self)@.color_pass },
                ..old(self)@
            }),
            old(self)@.wf() ==> final(self)@.wf(),
    {
        self.color_pass.set_clear_color(color);
    }

    /// The surface and its configuration.
    pub fn context(&self) -> (context: GraphicsContext)
        ensures
            context == self@.context,
    {
        self.context
    }

    /// The configuration that the surface has, or is due to get.
    pub fn config(&self) -> (config: SurfaceConfiguration)
        ensures
            config == self@.context.config,
    {
        self.context.config
    }

    /// The window's size.
    pub fn physical_size(&self) -> (size: PhysicalSize)
        ensures
            size == self@.physical_size,
    {
        self.physical_size
    }

    /// The depth attachment.
    pub fn depth_texture(&self) -> (texture: DepthTexture)
        ensures
            texture == self@.depth_texture,
    {
        self.depth_texture
    }

    /// The scene pass.
    pub fn color_pass(&self) -> (pass: &ColorPass<C>)
        ensures
            pass@ == self@.color_pass,
    {
        &self.color_pass
    }

    /// Where the current frame stands.
    pub fn phase(&self) -> (phase: FramePhase)
        ensures
            phase == self@.phase,
    {
        self.phase
    }

    /// Whether the surface took a new size that the platform has not been
    /// told of yet.
    pub fn resized(&self) -> (resized: bool)
        ensures
            resized == self@.resized,
    {
        self.resized
    }

    /// How many frames have been presented.
    pub fn frames(&self) -> (frames: u64)
        ensures
            frames == self@.frames,
    {
        self.frames
    }

    fn frame_requested(&mut self) -> (directive: Directive)
        ensures
            (final(self)@, directive@) == old(self)@.on_frame_requested(),
            old(self)@.wf() ==> final(self)@.wf(),
    {
        match self.phase {
            FramePhase::Idle | FramePhase::Presented => {},
            _ => {
                return Directive::Wait;
            },
        }
        let configured = match self.context.state {
            SurfaceState::OutOfMemory => {
                return Directive::Fatal;
            },
            SurfaceState::Configured { .. } => true,
            _ => false,
        };
        if self.resized || !configured {
            let depth_texture = if self.resized {
                Some(self.depth_texture)
            } else {
                None
            };
            self.phase = FramePhase::Reconfiguring { retry: false };
            self.resized = false;
            Directive::Reconfigure { config: self.context.config, depth_texture }
        } else {
            self.phase = FramePhase::AcquiringFrame { retried: false };
            Directive::Acquire
        }
    }

    fn reconfigured(&mut self) -> (directive: Directive)
        ensures
            (final(self)@, directive@) == old(self)@.on_reconfigured(),
            old(self)@.wf() ==> final(self)@.wf(),
    {
        match self.phase {
            FramePhase::Reconfiguring { retry } => {
                let width: u32 = self.context.config.width;
                let height: u32 = self.context.config.height;
                let _ = self.context.configure(width, height);
                self.phase = FramePhase::AcquiringFrame { retried: retry };
                Directive::Acquire
            },
            _ => Directive::Wait,
        }
    }

    fn acquired(&mut self, event: FrameEvent) -> (directive: Directive)
        ensures
            (final(self)@, directive@) == old(self)@.on_acquire(event),
            old(self)@.wf() ==> final(self)@.wf(),
    {
        let retried = match self.phase {
            FramePhase::AcquiringFrame { retried } => retried,
            _ => {
                return Directive::Wait;
            },
        };
        let outcome: Result<(), SurfaceFault> = match event {
            FrameEvent::AcquireFailed(fault) => Err(fault),
            _ => Ok(()),
        };
        match self.context.acquire_frame(outcome) {
            Ok(_) => {
                self.color_pass.update();
                self.phase = FramePhase::Rendering;
                Directive::Draw(create_render_pass("Render Pass", &*self))
            },
            Err(FrameError::Lost) => {
                if retried {
                    self.phase = FramePhase::Idle;
                    Directive::Skip
                } else {
                    self.phase = FramePhase::Reconfiguring { retry: true };
                    Directive::Reconfigure { config: self.context.config, depth_texture: None }
                }
            },
            Err(FrameError::OutOfMemory) => {
                self.phase = FramePhase::Idle;
                Directive::Fatal
            },
            Err(FrameError::Transient) => {
                self.phase = FramePhase::Idle;
                Directive::Skip
            },
        }
    }

    fn presented(&mut self) -> (directive: Directive)
        ensures
            (final(self)@, directive@) == old(self)@.on_presented(),
            old(self)@.wf() ==> final(self)@.wf(),
    {
        match self.phase {
            FramePhase::Rendering => {
                if self.frames < u64::MAX {
                    self.frames = self.frames + 1;
                }
                self.phase = FramePhase::Presented;
                Directive::Wait
            },
            _ => Directive::Wait,
        }
    }
}

/// A frame that nothing disturbs goes from rest through acquiring and
/// rendering to presented: the image is asked for, the scene moves one frame
/// on and its commands are recorded, and the frame is counted.
pub proof fn lemma_frame_runs_through<C>(s: StateView<C>)
    requires
        s.phase is Idle || s.phase is Presented,
        s.context.state is Configured,
        !s.resized,
    ensures
        ({
            let (acquiring, first) = s.step(FrameEvent::FrameRequested);
            let (rendering, second) = acquiring.step(FrameEvent::Acquired);
            let (presented, third) = rendering.step(FrameEvent::Presented);
            &&& first == DirectiveView::Acquire
            &&& acquiring == (StateView { phase: FramePhase::AcquiringFrame { retried: false }, ..s })
            &&& second == DirectiveView::Draw(
                CommandEncoderView { label: frame_label(), commands: s.updated().commands() },
            )
            &&& rendering == (StateView { phase: FramePhase::Rendering, ..s.updated() })
            &&& third == DirectiveView::Wait
            &&& presented == (StateView {
                phase: FramePhase::Presented,
                frames: next_frame_count(s.frames),
                ..s.updated()
            })
        }),
{
}

/// A size that arrived since the last frame reaches the platform before the
/// next image is asked for: the surface is configured with it, the depth
/// attachment is made anew with it, and only then the frame goes on.
pub proof fn lemma_resize_is_applied_first<C>(s: StateView<C>, width: u32, height: u32)
    requires
        s.wf(),
        s.phase is Idle || s.phase is Presented,
        s.context.accepts(width, height),
    ensures
        ({
            let resized = s.after_resize(width, height);
            let (configuring, first) = resized.step(FrameEvent::FrameRequested);
            let (acquiring, second) = configuring.step(FrameEvent::Reconfigured);
            &&& first == DirectiveView::Reconfigure {
                config: SurfaceConfiguration { width, height, ..s.context.config },
                depth_texture: Some(DepthTexture { width, height }),
            }
            &&& configuring.phase == (FramePhase::Reconfiguring { retry: false })
            &&& second == DirectiveView::Acquire
            &&& acquiring == (StateView {
                phase: FramePhase::AcquiringFrame { retried: false },
                resized: false,
                ..resized
            })
        }),
{
}

/// A lost surface is recovered once per frame: the first loss is answered
/// by one configuration with the unchanged size, without a new depth
/// attachment, and one more request for the image; whatever that request
/// brings, no second configuration follows in this frame, and a second loss
/// gives the frame up.
pub proof fn lemma_lost_retries_once<C>(s: StateView<C>, second_try: FrameEvent)
    requires
        s.wf(),
        s.phase == (FramePhase::AcquiringFrame { retried: false }),
        s.context.state is Configured,
        second_try is Acquired || second_try is AcquireFailed,
    ensures
        ({
            let (configuring, first) = s.step(FrameEvent::AcquireFailed(SurfaceFault::Lost));
            let (retrying, second) = configuring.step(FrameEvent::Reconfigured);
            let (after, third) = retrying.step(second_try);
            &&& first == DirectiveView::Reconfigure { config: s.context.config, depth_texture: None }
            &&& configuring.context.state == SurfaceState::Lost
            &&& configuring.frames == s.frames
            &&& second == DirectiveView::Acquire
            &&& retrying == (StateView { phase: FramePhase::AcquiringFrame { retried: true }, ..s })
            &&& !(third is Reconfigure) && !(third is Acquire)
            &&& second_try == FrameEvent::AcquireFailed(SurfaceFault::Lost) ==> third
                == DirectiveView::Skip && after.phase == FramePhase::Idle && after.context.state
                == SurfaceState::Lost && after.frames == s.frames
        }),
{
}

/// Running out of memory ends the loop: the report is answered with
/// `Fatal`, no frame is counted, and from then on no event and no new size
/// changes the state or is answered with anything but `Fatal` or `Wait`. A
/// request for a frame is answered with `Fatal`.
pub proof fn lemma_out_of_memory_is_final<C>(
    s: StateView<C>,
    later: FrameEvent,
    width: u32,
    height: u32,
)
    requires
        s.phase is AcquiringFrame,
        s.context.state is Configured,
    ensures
        ({
            let (ended, first) = s.step(FrameEvent::AcquireFailed(SurfaceFault::OutOfMemory));
            &&& first == DirectiveView::Fatal
            &&& ended == (StateView {
                context: GraphicsContext { state: SurfaceState::OutOfMemory, ..s.context },
                phase: FramePhase::Idle,
                ..s
            })
            &&& ended.step(later).0 == ended
            &&& ended.step(later).1 == DirectiveView::Fatal || ended.step(later).1
                == DirectiveView::Wait
            &&& ended.step(FrameEvent::FrameRequested).1 == DirectiveView::Fatal
            &&& ended.after_resize(width, height) == ended
        }),
{
}

/// A frame that the platform cannot serve just now leaves no trace: after a
/// timeout, or an outdated surface, the frame is given up, nothing but
/// the phase has changed, no frame is counted, and the next request for a
/// frame is treated exactly as it would have been without the skipped one.
pub proof fn lemma_transient_leaves_no_trace<C>(s: StateView<C>, fault: SurfaceFault)
    requires
        s.phase is Idle || s.phase is Presented,
        s.context.state is Configured,
        !s.resized,
        fault == SurfaceFault::Timeout || fault == SurfaceFault::Outdated,
    ensures
        ({
            let (acquiring, first) = s.step(FrameEvent::FrameRequested);
            let (skipped, second) = acquiring.step(FrameEvent::AcquireFailed(fault));
            &&& first == DirectiveView::Acquire
            &&& second == DirectiveView::Skip
            &&& skipped == (StateView { phase: FramePhase::Idle, ..s })
            &&& skipped.frames == s.frames
            &&& skipped.step(FrameEvent::FrameRequested) == s.step(FrameEvent::FrameRequested)
        }),
{
}

/// An event that does not belong to the phase the frame is in changes
/// nothing.
pub proof fn lemma_stray_events_are_ignored<C>(s: StateView<C>, event: FrameEvent)
    requires
        match event {
            FrameEvent::FrameRequested => !(s.phase is Idle || s.phase is Presented),
            FrameEvent::Reconfigured => !(s.phase is Reconfiguring),
            FrameEvent::Acquired => !(s.phase is AcquiringFrame),
            FrameEvent::AcquireFailed(_) => !(s.phase is AcquiringFrame),
            FrameEvent::Presented => !(s.phase is Rendering),
        },
    ensures
        s.step(event) == (s, DirectiveView::Wait),
{
}

} // verus!
