//! The render-loop state machine.
//!
//! The loop owns the current pipeline slot, the surface configuration and
//! the uniform clock, and consumes the merged native/custom event stream one
//! event at a time, on a single thread. Each event is handed to [`RenderLoop::step`],
//! which performs the transition and returns the directives the surrounding
//! windowing and device layer must carry out: reconfigure the surface, build
//! a rebuilt pipeline, surface a reload error, draw a frame, request the
//! next redraw, or leave the loop.
//!
//! A reload is committed in two phases. A change signal whose re-read text
//! the compile front end accepts yields a rebuild directive and marks a
//! build pending; the device layer performs the build under error capture
//! and reports a [`LoopEvent::PipelineBuilt`] outcome. Only a successful
//! outcome binds the next pipeline generation; a failed one — a
//! stage-interface mismatch or exhausted device resources that only the
//! device can detect — surfaces its diagnostic and leaves the bound
//! pipeline untouched, exactly as a front-end rejection does.

use vstd::prelude::*;

use crate::clock::{advanced, UniformClock};
use crate::shader::{front_end_accepts, validate_fragment_source, wgsl_parse, LoadError};

verus! {

/// How frames are presented: chosen once at startup, never changed by the
/// loop.
#[derive(Clone, Copy, PartialEq, Eq, Structural, Debug)]
pub enum PresentationMode {
    Fifo,
    Mailbox,
    Immediate,
}

/// The presentable surface's configuration: physical size, presentation
/// format and presentation mode. Only the dimensions ever change, and only
/// on resize events.
#[derive(Clone, Copy, PartialEq, Eq, Structural, Debug)]
pub struct SurfaceConfig {
    pub width: u32,
    pub height: u32,
    /// Opaque identifier of the presentation format, chosen from the
    /// surface's capabilities at startup.
    pub format: u32,
    pub present_mode: PresentationMode,
}

/// The loop's state: `Running` is normal operation (resizing and reloading
/// are in-place mutations within it), `Closing` is terminal.
#[derive(Clone, Copy, PartialEq, Eq, Structural, Debug)]
pub enum Mode {
    Running,
    Closing,
}

/// One event pulled from the merged native/custom event stream.
#[derive(Debug)]
pub enum LoopEvent {
    /// The window was resized to the given physical size.
    Resized { width: u32, height: u32 },
    /// The windowing layer asked for a frame; carries the elapsed-time
    /// reading, in milliseconds since loop entry, taken from a monotonic
    /// clock when the event is processed.
    RedrawRequested { elapsed_ms: u32 },
    /// A change signal arrived and the watched file was re-read in full:
    /// the whole new text, or the reader's error message.
    ShaderChanged { read: Result<String, String> },
    /// The device layer reports the outcome of the rebuild it was directed
    /// to perform: the new pipeline stands ready to bind, or the device's
    /// captured diagnostic.
    PipelineBuilt { outcome: Result<(), String> },
    /// The window was asked to close.
    CloseRequested,
    /// Any other native event: a no-op, except for the continuous-redraw
    /// tick.
    Other,
}

/// Spec-level image of one event.
pub ghost enum EventModel {
    Resized { width: u32, height: u32 },
    RedrawRequested { elapsed_ms: u32 },
    ShaderChanged { read: Result<Seq<char>, Seq<char>> },
    PipelineBuilt { outcome: Result<(), Seq<char>> },
    CloseRequested,
    Other,
}

impl View for LoopEvent {
    type V = EventModel;

    open spec fn view(&self) -> EventModel {
        match self {
            LoopEvent::Resized { width, height } => EventModel::Resized {
                width: *width,
                height: *height,
            },
            LoopEvent::RedrawRequested { elapsed_ms } => EventModel::RedrawRequested {
                elapsed_ms: *elapsed_ms,
            },
            LoopEvent::ShaderChanged { read } => EventModel::ShaderChanged {
                read: match read {
                    Ok(s) => Ok(s@),
                    Err(e) => Err(e@),
                },
            },
            LoopEvent::PipelineBuilt { outcome } => EventModel::PipelineBuilt {
                outcome: match outcome {
                    Ok(_) => Ok(()),
                    Err(e) => Err(e@),
                },
            },
            LoopEvent::CloseRequested => EventModel::CloseRequested,
            LoopEvent::Other => EventModel::Other,
        }
    }
}

/// Spec-level image of the loop's state.
pub ghost struct LoopModel {
    pub mode: Mode,
    pub config: SurfaceConfig,
    /// Value last written to the uniform clock.
    pub clock: u32,
    /// Generation of the pipeline currently bound: 0 is the initial
    /// pipeline, each committed rebuild moves to the next generation.
    pub generation: u64,
    /// A rebuild directive is out and its outcome has not come back yet.
    pub pending_build: bool,
}

/// The generation a committed rebuild binds: the next one, until the
/// counter is exhausted.
pub open spec fn next_generation(g: u64) -> u64 {
    if g < u64::MAX {
        (g + 1) as u64
    } else {
        g
    }
}

/// Did this event, arriving in this state, start a reload (re-read text
/// accepted by the compile front end, a rebuild directed)?
pub open spec fn reload_accepted(s: LoopModel, e: EventModel) -> bool {
    s.mode is Running && (e matches EventModel::ShaderChanged { read: Ok(src) }
        && front_end_accepts(src))
}

/// Did this event, arriving in this state, commit a build (the directed
/// rebuild came back successful)?
pub open spec fn build_commits(s: LoopModel, e: EventModel) -> bool {
    s.mode is Running && s.pending_build && (e matches EventModel::PipelineBuilt {
        outcome: Ok(_),
    })
}

/// The transition relation of the render loop, one event at a time.
pub open spec fn step_model(s: LoopModel, e: EventModel) -> LoopModel {
    if s.mode is Closing {
        s
    } else {
        match e {
            EventModel::Resized { width, height } => LoopModel {
                config: SurfaceConfig { width, height, ..s.config },
                ..s
            },
            EventModel::RedrawRequested { elapsed_ms } => LoopModel {
                clock: advanced(s.clock, elapsed_ms),
                ..s
            },
            EventModel::ShaderChanged { read } => match read {
                Ok(src) => if front_end_accepts(src) {
                    LoopModel { pending_build: true, ..s }
                } else {
                    s
                },
                Err(_) => s,
            },
            EventModel::PipelineBuilt { outcome } => if s.pending_build {
                match outcome {
                    Ok(_) => LoopModel {
                        generation: next_generation(s.generation),
                        pending_build: false,
                        ..s
                    },
                    Err(_) => LoopModel { pending_build: false, ..s },
                }
            } else {
                s
            },
            EventModel::CloseRequested => LoopModel { mode: Mode::Closing, ..s },
            EventModel::Other => s,
        }
    }
}

/// The state the loop enters with: `Running`, the initial pipeline bound,
/// the window's initial surface configuration, zero elapsed time, no build
/// in flight.
pub open spec fn initial_model(config: SurfaceConfig) -> LoopModel {
    LoopModel { mode: Mode::Running, config, clock: 0, generation: 0, pending_build: false }
}

/// Everything the device layer needs for one redraw tick.
#[derive(Clone, Copy, PartialEq, Eq, Structural, Debug)]
pub struct FrameParams {
    /// Surface dimensions the frame is presented at.
    pub width: u32,
    pub height: u32,
    /// Value the uniform clock holds while this frame draws.
    pub clock_ms: u32,
    /// Generation of the pipeline the draw must bind.
    pub pipeline_generation: u64,
    /// Vertex count of the fixed full-screen triangle pair.
    pub vertex_count: u32,
    /// Instance count of the draw.
    pub instance_count: u32,
}

/// The directives one transition hands back to the windowing and device
/// layer.
#[derive(Debug)]
pub struct StepResponse {
    /// The surface must be reconfigured to the updated configuration before
    /// the next frame is drawn.
    pub reconfigure: bool,
    /// The front end accepted a reload: build a pipeline from this source
    /// text under device error capture and report the outcome as a
    /// `PipelineBuilt` event. The old pipeline stays bound until a
    /// successful outcome comes back.
    pub rebuild: Option<String>,
    /// A reload failed — unreadable file, front-end rejection, or a failed
    /// device build: surface this error; the bound pipeline is untouched.
    pub error: Option<LoadError>,
    /// Draw a frame now, with these parameters.
    pub frame: Option<FrameParams>,
    /// Ask the windowing layer for another redraw, so that the preview
    /// animates continuously.
    pub request_redraw: bool,
    /// The loop is over; the caller releases window and device resources by
    /// unwinding.
    pub exit: bool,
}

/// The render loop's state: the current pipeline slot, the surface
/// configuration, and the uniform clock, all exclusively owned.
pub struct RenderLoop {
    mode: Mode,
    config: SurfaceConfig,
    clock: UniformClock,
    generation: u64,
    pending_build: bool,
}

impl View for RenderLoop {
    type V = LoopModel;

    closed spec fn view(&self) -> LoopModel {
        LoopModel {
            mode: self.mode,
            config: self.config,
            clock: self.clock.value(),
            generation: self.generation,
            pending_build: self.pending_build,
        }
    }
}

impl RenderLoop {
    /// Enter the loop: accept the shader file's initial contents through the
    /// compile front end and start `Running` with the window's initial
    /// surface configuration and zero elapsed time. Fails exactly when the
    /// front end rejects the initial source; the loop is not entered then.
    pub fn new(config: SurfaceConfig, initial_source: &str) -> (r: Result<RenderLoop, LoadError>)
        ensures
            r is Ok <==> front_end_accepts(initial_source@),
            r matches Ok(rl) ==> rl@ == initial_model(config),
            r matches Err(e) ==> e is Compile,
    {
        match validate_fragment_source(initial_source) {
            Err(e) => Err(e),
            Ok(_) => Ok(
                RenderLoop {
                    mode: Mode::Running,
                    config,
                    clock: UniformClock::new(),
                    generation: 0,
                    pending_build: false,
                },
            ),
        }
    }

    /// The surface configuration frames are presented with.
    pub fn surface_config(&self) -> (c: SurfaceConfig)
        ensures
            c == self@.config,
    {
        self.config
    }

    /// Generation of the pipeline currently bound: 0 is the initial
    /// pipeline, each committed rebuild increments it.
    pub fn pipeline_generation(&self) -> (g: u64)
        ensures
            g == self@.generation,
    {
        self.generation
    }

    /// Is the loop still in its `Running` state?
    pub fn is_running(&self) -> (b: bool)
        ensures
            b == (self@.mode is Running),
    {
        self.mode == Mode::Running
    }

    /// Process one event: perform the transition and return the directives
    /// the caller must carry out. A failed reload — an unreadable file, a
    /// front-end rejection, or a device build that came back failed —
    /// surfaces its diagnostic and leaves the bound pipeline, the surface
    /// configuration and the clock untouched. An accepted reload directs a
    /// rebuild and marks it pending; only the successful build outcome
    /// binds the next pipeline generation. A redraw advances the clock and
    /// describes the frame to draw with the currently bound pipeline; a
    /// resize updates the surface configuration before any later frame can
    /// be drawn.
    pub fn step(&mut self, event: LoopEvent) -> (resp: StepResponse)
        ensures
            final(self)@ == step_model(old(self)@, event@),
            resp.exit == (final(self)@.mode is Closing),
            resp.request_redraw == (final(self)@.mode is Running),
            resp.reconfigure == (old(self)@.mode is Running && event@ is Resized),
            old(self)@.mode is Running ==> (event@ matches EventModel::Resized { width, height }
                ==> final(self)@.config == (SurfaceConfig { width, height, ..old(self)@.config })),
            resp.frame is Some == (old(self)@.mode is Running && event@ is RedrawRequested),
            resp.frame matches Some(f) ==> {
                &&& f.width == old(self)@.config.width
                &&& f.height == old(self)@.config.height
                &&& f.pipeline_generation == old(self)@.generation
                &&& f.clock_ms == final(self)@.clock
                &&& f.vertex_count == 6
                &&& f.instance_count == 1
            },
            resp.rebuild is Some == reload_accepted(old(self)@, event@),
            resp.rebuild matches Some(src) ==> {
                &&& event@ matches EventModel::ShaderChanged { read: Ok(s) } && src@ == s
                &&& front_end_accepts(src@)
                &&& final(self)@.pending_build
                &&& final(self)@.generation == old(self)@.generation
            },
            build_commits(old(self)@, event@) ==> final(self)@.generation == next_generation(
                old(self)@.generation,
            ) && !final(self)@.pending_build,
            resp.error is Some == (old(self)@.mode is Running && ((event@
                matches EventModel::ShaderChanged { read } && !(read matches Ok(s)
                && front_end_accepts(s))) || (old(self)@.pending_build && event@
                matches EventModel::PipelineBuilt { outcome: Err(_) }))),
            resp.error matches Some(e) ==> (e is FileRead <==> event@ matches EventModel::ShaderChanged { read: Err(_) }),
            old(self)@.mode is Running ==> (event@ matches EventModel::ShaderChanged { read: Err(t) }
                ==> (resp.error matches Some(e) && e is FileRead && e.spec_diagnostic() == t)),
            old(self)@.mode is Running ==> (event@ matches EventModel::ShaderChanged { read: Ok(s) }
                ==> (wgsl_parse(s) matches Err(d) ==> (resp.error matches Some(e)
                && e.spec_diagnostic() == d))),
            old(self)@.mode is Running && old(self)@.pending_build ==> (event@
                matches EventModel::PipelineBuilt { outcome: Err(d) } ==> (resp.error
                matches Some(e) && e is Compile && e.spec_diagnostic() == d)),
            resp.error is Some ==> {
                &&& final(self)@.generation == old(self)@.generation
                &&& final(self)@.config == old(self)@.config
                &&& final(self)@.clock == old(self)@.clock
                &&& final(self)@.mode == old(self)@.mode
            },
    {
        let mut resp = StepResponse {
            reconfigure: false,
            rebuild: None,
            error: None,
            frame: None,
            request_redraw: false,
            exit: false,
        };
        if self.mode == Mode::Closing {
            resp.exit = true;
            return resp;
        }
        match event {
            LoopEvent::Resized { width, height } => {
                self.config.width = width;
                self.config.height = height;
                resp.reconfigure = true;
            },
            LoopEvent::RedrawRequested { elapsed_ms } => {
                let v = self.clock.advance(elapsed_ms);
                resp.frame = Some(
                    FrameParams {
                        width: self.config.width,
                        height: self.config.height,
                        clock_ms: v,
                        pipeline_generation: self.generation,
                        vertex_count: 6,
                        instance_count: 1,
                    },
                );
            },
            LoopEvent::ShaderChanged { read } => match read {
                Err(t) => {
                    resp.error = Some(LoadError::FileRead { diagnostic: t });
                },
                Ok(src) => match validate_fragment_source(src.as_str()) {
                    Ok(_) => {
                        self.pending_build = true;
                        resp.rebuild = Some(src);
                    },
                    Err(e) => {
                        resp.error = Some(e);
                    },
                },
            },
            LoopEvent::PipelineBuilt { outcome } => {
                if self.pending_build {
                    self.pending_build = false;
                    match outcome {
                        Ok(_) => {
                            self.generation = if self.generation < u64::MAX {
                                self.generation + 1
                            } else {
                                self.generation
                            };
                        },
                        Err(d) => {
                            resp.error = Some(LoadError::Compile { diagnostic: d });
                        },
                    }
                }
            },
            LoopEvent::CloseRequested => {
                self.mode = Mode::Closing;
            },
            LoopEvent::Other => {},
        }
        resp.request_redraw = self.mode == Mode::Running;
        resp.exit = self.mode == Mode::Closing;
        resp
    }
}

} // verus!
