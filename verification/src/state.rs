//! The rendering session: everything the loop owns between events, and
//! what each event does to it.

use crate::buffers::GeometryBuffers;
use crate::frame::{
    after_frame, frame_commands, frame_verdict, record_frame, ExitStatus, LoopAction, RenderCommand,
    SurfaceError,
};
use crate::input::{route, routed, Event, WindowEvent};
use crate::pipeline::PipelineConfig;
use crate::surface::{PhysicalSize, PresentMode, SurfaceConfig};
use vstd::prelude::*;

verus! {

/// Why no session could be started.
#[derive(Clone, Copy, Debug, PartialEq, Eq, Structural)]
pub enum InitError {
    /// No GPU adapter can present to the window's surface.
    NoAdapterFound,
    /// The adapter did not hand out a device and a queue.
    DeviceCreationFailed,
}

/// What acquiring the GPU came to.
#[derive(Clone, Copy, Debug, PartialEq, Eq)]
pub enum DeviceProbe {
    /// No adapter was found.
    NoAdapter,
    /// An adapter was found, but it gave no device.
    NoDevice,
    /// Adapter, device and queue are there; the surface prefers the format.
    Ready(wgpu::TextureFormat),
}

/// Whether the loop goes on.
#[derive(Clone, Copy, Debug, PartialEq, Eq, Structural)]
pub enum ControlFlow {
    /// Go on with the next event.
    Poll,
    /// Stop. Once set, nothing sets it back.
    Exit(ExitStatus),
}

/// What the host has to do for the session after an event.
#[derive(Clone, Copy, Debug, PartialEq, Eq, Structural)]
pub enum HostRequest {
    Nothing,
    /// Apply the session's configuration to the surface.
    ConfigureSurface,
    /// Run a frame and hand its outcome to `frame_finished`.
    Render,
    /// Ask the window for a redraw.
    RequestRedraw,
    /// Write the error to standard error.
    Log(SurfaceError),
    /// Leave the loop and end the process.
    Exit(ExitStatus),
}

/// The session.
#[derive(Debug)]
pub struct State {
    pub config: SurfaceConfig,
    pub size: PhysicalSize,
    pub pipeline: PipelineConfig,
    pub geometry: GeometryBuffers,
    pub control: ControlFlow,
}

impl State {
    /// The session holds one configuration that a surface accepts, its
    /// size is that of the configuration, and pipeline and geometry fit
    /// together.
    pub open spec fn wf(self) -> bool {
        &&& self.size == self.config.size()
        &&& self.size.presentable()
        &&& self.geometry.wf()
        &&& self.pipeline.is_standard(self.config.format, self.geometry@.instances is Some)
        &&& self.pipeline.fault() is None
    }

    /// The session after a resize request: configuration and size follow
    /// the request where its squared size is presentable, and nothing
    /// changes where it is not.
    pub open spec fn resized(self, new_size: PhysicalSize) -> State {
        State {
            config: self.config.reconfigured(new_size),
            size: self.config.reconfigured(new_size).size(),
            ..self
        }
    }

    /// The session after the loop's decision `action`, and what the host
    /// has to do.
    pub open spec fn applied(self, action: LoopAction) -> (State, HostRequest) {
        match action {
            LoopAction::Continue => (self, HostRequest::Nothing),
            LoopAction::Report(error) => (self, HostRequest::Log(error)),
            LoopAction::Reconfigure(size) => (
                self.resized(size),
                if size.squared().presentable() {
                    HostRequest::ConfigureSurface
                } else {
                    HostRequest::Nothing
                },
            ),
            LoopAction::Terminate(status) => (
                State { control: ControlFlow::Exit(status), ..self },
                HostRequest::Exit(status),
            ),
        }
    }

    /// The session after an event of the host's loop, and what the host
    /// has to do. Events of other windows are ignored, and so is every
    /// event once the loop was told to stop.
    pub open spec fn handled(self, event: Event) -> (State, HostRequest) {
        match self.control {
            ControlFlow::Exit(status) => (self, HostRequest::Exit(status)),
            ControlFlow::Poll => match event {
                Event::WindowEvent { own_window, event } => if own_window {
                    self.applied(routed(event))
                } else {
                    (self, HostRequest::Nothing)
                },
                Event::RedrawRequested { own_window } => if own_window {
                    (self, HostRequest::Render)
                } else {
                    (self, HostRequest::Nothing)
                },
                Event::MainEventsCleared => (self, HostRequest::RequestRedraw),
                Event::Other => (self, HostRequest::Nothing),
            },
        }
    }

    /// The session after a frame that ended with `outcome`, and what the
    /// host has to do.
    pub open spec fn finished(self, outcome: Result<(), SurfaceError>) -> (State, HostRequest) {
        match self.control {
            ControlFlow::Exit(status) => (self, HostRequest::Exit(status)),
            ControlFlow::Poll => self.applied(frame_verdict(self.size, outcome)),
        }
    }

    /// Starts a session at the requested size from what acquiring the GPU
    /// came to. The surface is configured at that size as it is, in the
    /// format that it prefers, paced by the display.
    pub fn new(size: PhysicalSize, probe: DeviceProbe, geometry: GeometryBuffers) -> (result:
        Result<State, InitError>)
        requires
            size.presentable(),
            geometry.wf(),
        ensures
            match probe {
                DeviceProbe::NoAdapter => result matches Err(error) && error
                    == InitError::NoAdapterFound,
                DeviceProbe::NoDevice => result matches Err(error) && error
                    == InitError::DeviceCreationFailed,
                DeviceProbe::Ready(format) => {
                    &&& result matches Ok(state)
                    &&& state.wf()
                    &&& state.config == (SurfaceConfig {
                        width: size.width,
                        height: size.height,
                        format,
                        present_mode: PresentMode::Fifo,
                    })
                    &&& state.size == size
                    &&& state.geometry == geometry
                    &&& state.control == ControlFlow::Poll
                },
            },
    {
        match probe {
            DeviceProbe::NoAdapter => Err(InitError::NoAdapterFound),
            DeviceProbe::NoDevice => Err(InitError::DeviceCreationFailed),
            DeviceProbe::Ready(format) => {
                let config = SurfaceConfig {
                    width: size.width,
                    height: size.height,
                    format,
                    present_mode: PresentMode::Fifo,
                };
                let pipeline = PipelineConfig::new(format, geometry.has_instances());
                Ok(State { config, size, pipeline, geometry, control: ControlFlow::Poll })
            },
        }
    }

    /// Resizes the session: the requested size is squared by shrinking
    /// its larger dimension and, where the result is presentable, replaces
    /// the configured size. Returns whether the configuration was replaced
    /// and has to be applied to the surface.
    pub fn resize(&mut self, new_size: PhysicalSize) -> (replaced: bool)
        requires
            old(self).wf(),
        ensures
            final(self).wf(),
            *final(self) == old(self).resized(new_size),
            replaced == new_size.squared().presentable(),
    {
        let replaced = self.config.reconfigure(new_size);
        if replaced {
            self.size = PhysicalSize { width: self.config.width, height: self.config.height };
        }
        replaced
    }

    /// Offers a window event to the session before it is routed. The
    /// session consumes none.
    pub fn input(&mut self, event: &WindowEvent) -> (consumed: bool)
        ensures
            !consumed,
            *final(self) == *old(self),
    {
        false
    }

    /// Advances what is drawn by one frame. Nothing moves, so nothing
    /// changes.
    pub fn update(&mut self)
        ensures
            *final(self) == *old(self),
    {
    }

    /// The commands of the frame's render pass.
    pub fn render(&self) -> (commands: Vec<RenderCommand>)
        requires
            self.wf(),
        ensures
            commands@ == frame_commands(self.geometry@),
    {
        record_frame(&self.geometry)
    }

    /// Carries out a decision of the loop on the session.
    pub fn apply(&mut self, action: LoopAction) -> (request: HostRequest)
        requires
            old(self).wf(),
        ensures
            final(self).wf(),
            (*final(self), request) == old(self).applied(action),
    {
        match action {
            LoopAction::Continue => HostRequest::Nothing,
            LoopAction::Report(error) => HostRequest::Log(error),
            LoopAction::Reconfigure(size) => {
                if self.resize(size) {
                    HostRequest::ConfigureSurface
                } else {
                    HostRequest::Nothing
                }
            },
            LoopAction::Terminate(status) => {
                self.control = ControlFlow::Exit(status);
                HostRequest::Exit(status)
            },
        }
    }

    /// Handles one event of the host's loop.
    pub fn handle_event(&mut self, event: &Event) -> (request: HostRequest)
        requires
            old(self).wf(),
        ensures
            final(self).wf(),
            (*final(self), request) == old(self).handled(*event),
    {
        if let ControlFlow::Exit(status) = self.control {
            return HostRequest::Exit(status);
        }
        match event {
            Event::WindowEvent { own_window: true, event } => {
                if self.input(event) {
                    HostRequest::Nothing
                } else {
                    self.apply(route(event))
                }
            },
            Event::RedrawRequested { own_window: true } => HostRequest::Render,
            Event::MainEventsCleared => HostRequest::RequestRedraw,
            _ => HostRequest::Nothing,
        }
    }

    /// Takes the outcome of a frame: success goes on, a lost surface is
    /// configured again at the session's size, a device out of memory
    /// stops the loop, any other error is logged and left to the next
    /// frame.
    pub fn frame_finished(&mut self, outcome: Result<(), SurfaceError>) -> (request: HostRequest)
        requires
            old(self).wf(),
        ensures
            final(self).wf(),
            (*final(self), request) == old(self).finished(outcome),
    {
        if let ControlFlow::Exit(status) = self.control {
            return HostRequest::Exit(status);
        }
        let action = after_frame(self.size, outcome);
        self.apply(action)
    }
}

/// Once the loop was told to stop it stays stopped: every later event and
/// every later frame outcome leaves the session as it is and asks the host
/// for nothing but the exit, so no further frame is rendered.
pub proof fn lemma_exit_is_final(
    state: State,
    status: ExitStatus,
    event: Event,
    outcome: Result<(), SurfaceError>,
)
    requires
        state.control == ControlFlow::Exit(status),
    ensures
        state.handled(event) == (state, HostRequest::Exit(status)),
        state.finished(outcome) == (state, HostRequest::Exit(status)),
{
}

/// A device out of memory stops a running loop with a failure.
pub proof fn lemma_out_of_memory_stops(state: State)
    requires
        state.control == ControlFlow::Poll,
    ensures
        state.finished(Err(SurfaceError::OutOfMemory)).1 == HostRequest::Exit(ExitStatus::Failure),
        state.finished(Err(SurfaceError::OutOfMemory)).0.control == ControlFlow::Exit(
            ExitStatus::Failure,
        ),
{
}

/// A lost surface is configured again at the session's size. Where that
/// size is square, as it is after any resize, the configuration is the one
/// the session had.
pub proof fn lemma_lost_surface_reconfigures(state: State)
    requires
        state.wf(),
        state.control == ControlFlow::Poll,
    ensures
        state.finished(Err(SurfaceError::Lost)) == state.applied(LoopAction::Reconfigure(state.size)),
        state.finished(Err(SurfaceError::Lost)).1 == HostRequest::ConfigureSurface,
        state.size.width == state.size.height ==> state.finished(Err(SurfaceError::Lost)).0
            == state,
{
}

/// Whatever is asked for, a resize leaves a well-formed session, and the
/// session is square from then on if the request took effect.
pub proof fn lemma_resize_keeps_session(state: State, new_size: PhysicalSize)
    requires
        state.wf(),
    ensures
        state.resized(new_size).wf(),
        new_size.squared().presentable() ==> state.resized(new_size).size.width == state.resized(
            new_size,
        ).size.height,
        !new_size.squared().presentable() ==> state.resized(new_size) == state,
{
}

} // verus!
