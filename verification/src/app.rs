//! The triangle application: a device context, a configured surface, the
//! render pipeline and the frame driver, and the holder that the window's
//! event handler works on.

use vstd::prelude::*;
use crate::device::DeviceContext;
use crate::error::GpuError;
use crate::frame::{frame_start, frame_step, FrameAction, FrameDriver, FrameEvent};
use crate::pipeline::{build_render_pipeline, render_ready, PipelineDescriptor, RenderPipelineDescriptor};
use crate::shader::{compiled_views, EntryPoint, EntryPointView};
use crate::surface::{
    default_config, presentable, resized, SurfaceCapabilities, SurfaceConfig, SurfaceState,
};

verus! {

/// Everything the triangle application holds once its startup is done.
#[derive(Debug)]
pub struct WgpuApp {
    context: DeviceContext,
    surface: SurfaceState,
    pipeline: RenderPipelineDescriptor,
    frame: FrameDriver,
}

/// What startup gives, from the surface's first configuration and what
/// compiling the shader gave: the configuration, or the error that ends the
/// program.
pub open spec fn startup(config: SurfaceConfig, compiled: Option<Seq<EntryPointView>>) -> Result<
    SurfaceConfig,
    GpuError,
> {
    if render_ready(compiled) {
        Ok(config)
    } else {
        Err(GpuError::ShaderCompilationError)
    }
}

impl WgpuApp {
    #[verifier::type_invariant]
    spec fn pipeline_fits_surface(self) -> bool {
        self.pipeline.draws_triangle_to(self.surface@.format) && self.surface@.valid()
    }

    /// The configuration last applied to the surface.
    pub closed spec fn config_spec(self) -> SurfaceConfig {
        self.surface@
    }

    /// The driver of the frame loop.
    pub closed spec fn frame_spec(self) -> FrameDriver {
        self.frame
    }

    /// The render pipeline.
    pub closed spec fn pipeline_spec(self) -> RenderPipelineDescriptor {
        self.pipeline
    }

    /// The device context the application was started on.
    pub closed spec fn context_spec(self) -> DeviceContext {
        self.context
    }

    /// Finishes startup once device and queue exist: takes the surface's
    /// default configuration at the window's size, clamped, and builds the
    /// triangle pipeline for its format from what compiling the shader
    /// gave. The caller applies [`WgpuApp::config`] to the device and
    /// creates the pipeline from [`WgpuApp::pipeline`].
    ///
    /// The surface has to be one that its adapter can present to. Fails
    /// with `ShaderCompilationError` where the shader did not compile, did
    /// not validate, or lacks the entry points `vs` and `fs`; succeeds
    /// otherwise.
    pub fn new(
        context: DeviceContext,
        caps: &SurfaceCapabilities,
        width: u32,
        height: u32,
        compiled: &Option<Vec<EntryPoint>>,
    ) -> (app: Result<WgpuApp, GpuError>)
        requires
            presentable(*caps),
        ensures
            match startup(
                default_config(caps.formats@, caps.present_modes@, width, height),
                compiled_views(*compiled),
            ) {
                Ok(config) => app matches Ok(a) && a.config_spec() == config
                    && a.pipeline_spec().draws_triangle_to(config.format) && a.frame_spec()
                    == frame_start() && a.context_spec() == context,
                Err(e) => app matches Err(f) && f == e,
            },
    {
        let surface = SurfaceState::create(caps, width, height);
        let format = surface.config().format;
        match build_render_pipeline(&context, format, compiled) {
            Ok(PipelineDescriptor::Render(pipeline)) => Ok(
                WgpuApp { context, surface, pipeline, frame: FrameDriver::new() },
            ),
            Ok(PipelineDescriptor::Compute(_)) => Err(GpuError::ShaderCompilationError),
            Err(e) => Err(e),
        }
    }

    /// The configuration last applied to the surface; its extent is never
    /// zero.
    pub fn config(&self) -> (config: SurfaceConfig)
        ensures
            config == self.config_spec(),
            config.valid(),
    {
        self.surface.config()
    }

    /// The render pipeline: the triangle pipeline for the surface's format.
    pub fn pipeline(&self) -> (pipeline: &RenderPipelineDescriptor)
        ensures
            *pipeline == self.pipeline_spec(),
            pipeline.draws_triangle_to(self.config_spec().format),
    {
        proof {
            use_type_invariant(self);
        }
        &self.pipeline
    }

    /// The device context the application was started on.
    pub fn context(&self) -> (context: DeviceContext)
        ensures
            context == self.context_spec(),
    {
        self.context
    }

    /// The driver of the frame loop.
    pub fn frame(&self) -> (frame: FrameDriver)
        ensures
            frame == self.frame_spec(),
    {
        self.frame
    }

    /// Takes one report of the frame in progress and says what to do next:
    /// the step of [`frame_step`] with the surface's configuration. Neither
    /// the configuration nor the pipeline changes.
    pub fn render(&mut self, event: FrameEvent) -> (action: FrameAction)
        ensures
            (final(self).frame_spec(), action) == frame_step(
                old(self).frame_spec(),
                old(self).config_spec(),
                event,
            ),
            final(self).config_spec() == old(self).config_spec(),
            final(self).pipeline_spec() == old(self).pipeline_spec(),
            final(self).context_spec() == old(self).context_spec(),
    {
        proof {
            use_type_invariant(&*self);
        }
        let config = self.surface.config();
        let mut frame = self.frame;
        let action = frame.advance(config, event);
        self.frame = frame;
        action
    }

    /// Takes over a new window size, each extent raised to at least one,
    /// and returns the configuration that the caller applies to the device
    /// again. Format, presentation mode, pipeline and frame stay.
    pub fn resize(&mut self, width: u32, height: u32) -> (applied: SurfaceConfig)
        ensures
            final(self).config_spec() == resized(old(self).config_spec(), width, height),
            applied == final(self).config_spec(),
            applied.valid(),
            final(self).pipeline_spec() == old(self).pipeline_spec(),
            final(self).frame_spec() == old(self).frame_spec(),
            final(self).context_spec() == old(self).context_spec(),
    {
        proof {
            use_type_invariant(&*self);
        }
        let mut surface = self.surface;
        let applied = surface.resize(width, height);
        self.surface = surface;
        applied
    }
}

/// What the window reports.
#[derive(Clone, Copy, Debug, PartialEq, Eq, Structural)]
pub enum WindowEvent {
    CloseRequested,
    RedrawRequested,
    /// The window has a new size: width, then height.
    Resized(u32, u32),
    /// Anything else.
    Other,
}

/// What the event handler does for the window, in the order given.
#[derive(Clone, Copy, Debug, PartialEq, Eq, Structural)]
pub enum WindowCommand {
    /// Leave the event loop.
    Exit,
    /// Tell the window that a frame is about to be presented.
    PrePresentNotify,
    /// Run one frame: report `Redraw` to [`App::render`] and follow the
    /// actions until the frame is complete or abandoned.
    RenderFrame,
    /// Ask the window for the next redraw.
    RequestRedraw,
    /// Apply the configuration to the surface.
    Configure(SurfaceConfig),
}

/// What the handler does for an event while the application is ready.
pub open spec fn window_commands(config: SurfaceConfig, event: WindowEvent) -> Seq<WindowCommand> {
    match event {
        WindowEvent::CloseRequested => seq![WindowCommand::Exit],
        WindowEvent::RedrawRequested => seq![
            WindowCommand::PrePresentNotify,
            WindowCommand::RenderFrame,
            WindowCommand::RequestRedraw,
        ],
        WindowEvent::Resized(width, height) => seq![
            WindowCommand::Configure(resized(config, width, height)),
        ],
        WindowEvent::Other => Seq::<WindowCommand>::empty(),
    }
}

/// The holder of the application: empty until startup is done, ready
/// afterwards. Once ready, only a resize changes what it holds besides the
/// frame in progress.
#[derive(Debug)]
pub struct App {
    wgpu_app: Option<WgpuApp>,
}

impl App {
    /// What the holder holds.
    pub closed spec fn view(self) -> Option<WgpuApp> {
        self.wgpu_app
    }

    /// An empty holder.
    pub fn new() -> (app: App)
        ensures
            app@ is None,
    {
        App { wgpu_app: None }
    }

    /// Whether the application is ready.
    pub fn is_ready(&self) -> (ready: bool)
        ensures
            ready == (self@ is Some),
    {
        self.wgpu_app.is_some()
    }

    /// Called when the event loop resumes: says whether the caller has to
    /// create the window and start the application, which is the case only
    /// while the holder is empty.
    pub fn resumed(&self) -> (initialize: bool)
        ensures
            initialize == (self@ is None),
    {
        self.wgpu_app.is_none()
    }

    /// Stores the application when startup is done. The first one wins: a
    /// holder that is ready keeps what it has and returns `false`.
    pub fn install(&mut self, wgpu_app: WgpuApp) -> (installed: bool)
        ensures
            installed == (old(self)@ is None),
            installed ==> final(self)@ == Some(wgpu_app),
            !installed ==> final(self)@ == old(self)@,
    {
        if self.wgpu_app.is_none() {
            self.wgpu_app = Some(wgpu_app);
            true
        } else {
            false
        }
    }

    /// The configuration last applied, once the application is ready.
    pub fn config(&self) -> (config: Option<SurfaceConfig>)
        ensures
            match self@ {
                Some(a) => config == Some(a.config_spec()),
                None => config is None,
            },
    {
        match &self.wgpu_app {
            Some(a) => Some(a.config()),
            None => None,
        }
    }

    /// Handles one event of the window. While the holder is empty every
    /// event is dropped. Once ready: a close request ends the loop; a
    /// redraw request runs one frame between the notice to the window and
    /// the request for the next redraw; a new size is taken over, clamped,
    /// and applied; anything else is dropped.
    pub fn window_event(&mut self, event: WindowEvent) -> (commands: Vec<WindowCommand>)
        ensures
            match old(self)@ {
                None => commands@ == Seq::<WindowCommand>::empty() && final(self)@ is None,
                Some(before) => {
                    &&& commands@ == window_commands(before.config_spec(), event)
                    &&& final(self)@ matches Some(after)
                    &&& after.frame_spec() == before.frame_spec()
                    &&& after.pipeline_spec() == before.pipeline_spec()
                    &&& after.context_spec() == before.context_spec()
                    &&& after.config_spec() == match event {
                        WindowEvent::Resized(width, height) => resized(
                            before.config_spec(),
                            width,
                            height,
                        ),
                        _ => before.config_spec(),
                    }
                },
            },
    {
        let mut commands: Vec<WindowCommand> = Vec::new();
        match &mut self.wgpu_app {
            None => {},
            Some(app) => {
                match event {
                    WindowEvent::CloseRequested => {
                        commands.push(WindowCommand::Exit);
                    },
                    WindowEvent::RedrawRequested => {
                        commands.push(WindowCommand::PrePresentNotify);
                        commands.push(WindowCommand::RenderFrame);
                        commands.push(WindowCommand::RequestRedraw);
                    },
                    WindowEvent::Resized(width, height) => {
                        let applied = app.resize(width, height);
                        commands.push(WindowCommand::Configure(applied));
                    },
                    WindowEvent::Other => {},
                }
            },
        }
        proof {
            if let Some(before) = old(self)@ {
                assert(commands@ =~= window_commands(before.config_spec(), event));
            }
        }
        commands
    }

    /// Passes one report of the frame in progress to the application; see
    /// [`WgpuApp::render`]. `None` while the holder is empty.
    pub fn render(&mut self, event: FrameEvent) -> (action: Option<FrameAction>)
        ensures
            match old(self)@ {
                None => action is None && final(self)@ is None,
                Some(before) => {
                    &&& final(self)@ matches Some(after)
                    &&& action matches Some(a)
                    &&& (after.frame_spec(), a) == frame_step(
                        before.frame_spec(),
                        before.config_spec(),
                        event,
                    )
                    &&& after.config_spec() == before.config_spec()
                    &&& after.pipeline_spec() == before.pipeline_spec()
                    &&& after.context_spec() == before.context_spec()
                },
            },
    {
        match &mut self.wgpu_app {
            None => None,
            Some(app) => Some(app.render(event)),
        }
    }
}

} // verus!
