//! The start-up, run and teardown sequence as a state machine: the host asks
//! `next_request` what to do, does it, and hands the outcome to `step`, which
//! answers with the calls to make.

use vstd::prelude::*;
use crate::laws::lemma_step_well_formed;
use crate::lifecycle::{
    AppData, EngineCall, LifecycleEvent, SystemProperties, after_events, events_calls,
};

verus! {

/// How long a poll for events may block while waiting for the window.
pub const WINDOW_WAIT_MS: u64 = 100;

/// Where the controller stands in a run.
#[derive(Clone, Copy, Debug, PartialEq, Eq, Structural)]
pub enum Phase {
    /// Polling events until a window exists or destruction is requested.
    WaitingForWindow,
    /// The wait is over; the host reports whether a native window exists.
    WindowCheck,
    /// The engine is being initialized.
    Initializing,
    /// Draining pending events, without blocking.
    Running,
    /// Processing one frame.
    AwaitingFrame,
    /// The run is over.
    Finished,
}

/// What the host should do next.
#[derive(Clone, Copy, Debug, PartialEq, Eq, Structural)]
pub enum Request {
    /// Poll lifecycle events, blocking at most this many milliseconds.
    PollEvents { timeout_ms: u64 },
    /// Report whether the platform has a native window.
    CheckWindow,
    /// Initialize the engine.
    InitEngine,
    /// Let the engine process one frame.
    ProcessFrame,
    /// Return from the entry point.
    Exit,
}

/// What the host observed while doing what it was asked.
pub enum Input {
    /// The events that one poll delivered, in order.
    Events(Vec<LifecycleEvent>),
    /// Whether the platform has a native window.
    Window(bool),
    /// The outcome of engine initialization, with the window's size.
    InitResult {
        success: bool,
        properties: SystemProperties,
        window_width: u32,
        window_height: u32,
    },
    /// The outcome of one frame.
    Frame { exit_render_loop: bool, request_restart: bool },
}

/// The controller: the state record and the phase of the run.
#[derive(Clone, Copy, Debug, PartialEq, Eq, Structural)]
pub struct Controller {
    pub app: AppData,
    pub phase: Phase,
}

/// The properties recorded after a successful initialization: half the
/// window's width and its full height per eye, whatever the engine recommended.
pub open spec fn preferred_properties(window_width: u32, window_height: u32) -> SystemProperties {
    SystemProperties {
        recommended_eye_width: window_width / 2,
        recommended_eye_height: window_height,
    }
}

/// The controller at process start.
pub open spec fn start() -> Controller {
    Controller { app: AppData::new_spec(), phase: Phase::WaitingForWindow }
}

/// The engine teardown that ends every run that reached the run loop.
pub open spec fn teardown_calls() -> Seq<EngineCall> {
    seq![EngineCall::Shutdown, EngineCall::Destroy]
}

/// The consistent states of a run.
pub open spec fn well_formed(c: Controller) -> bool {
    match c.phase {
        Phase::WaitingForWindow => !c.app.destroy_requested && !c.app.window_inited
            && c.app.sys_properties.is_none(),
        Phase::WindowCheck => (c.app.destroy_requested || c.app.window_inited)
            && c.app.sys_properties.is_none(),
        Phase::Initializing => !c.app.destroy_requested && c.app.window_inited
            && c.app.sys_properties.is_none(),
        Phase::Running => !c.app.destroy_requested && c.app.window_inited
            && c.app.sys_properties.is_some(),
        Phase::AwaitingFrame => !c.app.destroy_requested && c.app.window_inited
            && c.app.sys_properties.is_some(),
        Phase::Finished => true,
    }
}

/// What the host is asked to do in each phase.
pub open spec fn request_of(c: Controller) -> Request {
    match c.phase {
        Phase::WaitingForWindow => Request::PollEvents { timeout_ms: WINDOW_WAIT_MS },
        Phase::WindowCheck => Request::CheckWindow,
        Phase::Initializing => Request::InitEngine,
        Phase::Running => Request::PollEvents { timeout_ms: 0 },
        Phase::AwaitingFrame => Request::ProcessFrame,
        Phase::Finished => Request::Exit,
    }
}

/// One step of the run: the next controller and the calls to make. An input
/// that does not belong to the phase changes nothing.
pub open spec fn transition(c: Controller, i: Input) -> (Controller, Seq<EngineCall>) {
    match (c.phase, i) {
        (Phase::WaitingForWindow, Input::Events(es)) => {
            let a = after_events(c.app, es@);
            let phase = if a.destroy_requested || a.window_inited {
                Phase::WindowCheck
            } else {
                Phase::WaitingForWindow
            };
            (Controller { app: a, phase }, events_calls(c.app, es@))
        },
        (Phase::WindowCheck, Input::Window(present)) => {
            if !c.app.destroy_requested && present {
                (Controller { phase: Phase::Initializing, ..c }, seq![EngineCall::Init])
            } else {
                (Controller { phase: Phase::Finished, ..c }, seq![])
            }
        },
        (Phase::Initializing, Input::InitResult { success, properties, window_width, window_height }) => {
            if success {
                let p = preferred_properties(window_width, window_height);
                (
                    Controller {
                        app: AppData { sys_properties: Some(p), ..c.app },
                        phase: Phase::Running,
                    },
                    seq![EngineCall::InitConnections(p)],
                )
            } else {
                (Controller { phase: Phase::Finished, ..c }, seq![])
            }
        },
        (Phase::Running, Input::Events(es)) => {
            let a = after_events(c.app, es@);
            let calls = events_calls(c.app, es@);
            if a.destroy_requested {
                (Controller { app: a, phase: Phase::Finished }, calls + teardown_calls())
            } else {
                (Controller { app: a, phase: Phase::AwaitingFrame }, calls)
            }
        },
        (Phase::AwaitingFrame, Input::Frame { exit_render_loop, request_restart }) => {
            if exit_render_loop {
                (Controller { phase: Phase::Finished, ..c }, teardown_calls())
            } else {
                (Controller { phase: Phase::Running, ..c }, seq![])
            }
        },
        _ => (c, seq![]),
    }
}

/// A whole run from `c` over the inputs, in order: the last controller and all
/// the calls made.
pub open spec fn run(c: Controller, ins: Seq<Input>) -> (Controller, Seq<EngineCall>)
    decreases ins.len(),
{
    if ins.len() == 0 {
        (c, seq![])
    } else {
        let prev = run(c, ins.drop_last());
        let last = transition(prev.0, ins.last());
        (last.0, prev.1 + last.1)
    }
}

fn teardown(calls: &mut Vec<EngineCall>)
    ensures
        final(calls)@ == old(calls)@ + teardown_calls(),
{
    calls.push(EngineCall::Shutdown);
    calls.push(EngineCall::Destroy);
    assert(final(calls)@ =~= old(calls)@ + teardown_calls());
}

impl Controller {
    /// A controller at process start, waiting for the window.
    pub fn new() -> (r: Controller)
        ensures
            r == start(),
            well_formed(r),
    {
        Controller { app: AppData::new(), phase: Phase::WaitingForWindow }
    }

    /// What the host should do next.
    pub fn next_request(&self) -> (r: Request)
        ensures
            r == request_of(*self),
    {
        match self.phase {
            Phase::WaitingForWindow => Request::PollEvents { timeout_ms: WINDOW_WAIT_MS },
            Phase::WindowCheck => Request::CheckWindow,
            Phase::Initializing => Request::InitEngine,
            Phase::Running => Request::PollEvents { timeout_ms: 0 },
            Phase::AwaitingFrame => Request::ProcessFrame,
            Phase::Finished => Request::Exit,
        }
    }

    /// One poll of the wait for the window: handles the events, and ends the
    /// wait once a window exists or destruction is requested.
    pub fn wait_until_window_init(&mut self, events: &Vec<LifecycleEvent>) -> (r: Vec<EngineCall>)
        requires
            well_formed(*old(self)),
            old(self).phase == Phase::WaitingForWindow,
        ensures
            (*final(self), r@) == transition(*old(self), Input::Events(*events)),
            well_formed(*final(self)),
    {
        proof {
            lemma_step_well_formed(*self, Input::Events(*events));
        }
        let calls = self.app.handle_events(events);
        if self.app.destroy_requested || self.app.window_inited {
            self.phase = Phase::WindowCheck;
        }
        calls
    }

    /// Decides, once the wait is over, whether to initialize the engine: only
    /// where a window exists and destruction was not requested.
    pub fn check_window(&mut self, present: bool) -> (r: Vec<EngineCall>)
        requires
            well_formed(*old(self)),
            old(self).phase == Phase::WindowCheck,
        ensures
            (*final(self), r@) == transition(*old(self), Input::Window(present)),
            well_formed(*final(self)),
    {
        proof {
            lemma_step_well_formed(*self, Input::Window(present));
        }
        if !self.app.destroy_requested && present {
            self.phase = Phase::Initializing;
            let mut calls: Vec<EngineCall> = Vec::new();
            calls.push(EngineCall::Init);
            assert(calls@ =~= seq![EngineCall::Init]);
            calls
        } else {
            self.phase = Phase::Finished;
            Vec::new()
        }
    }

    /// Records the outcome of engine initialization. On success the per-eye
    /// size becomes half the window's width by its height, the properties are
    /// recorded and the connections set up; on failure the run ends quietly.
    pub fn init_finished(
        &mut self,
        success: bool,
        properties: SystemProperties,
        window_width: u32,
        window_height: u32,
    ) -> (r: Vec<EngineCall>)
        requires
            well_formed(*old(self)),
            old(self).phase == Phase::Initializing,
        ensures
            (*final(self), r@) == transition(
                *old(self),
                Input::InitResult { success, properties, window_width, window_height },
            ),
            well_formed(*final(self)),
    {
        proof {
            lemma_step_well_formed(
                *self,
                Input::InitResult { success, properties, window_width, window_height },
            );
        }
        if success {
            let mut p = properties;
            p.recommended_eye_width = window_width / 2;
            p.recommended_eye_height = window_height;
            self.app.sys_properties = Some(p);
            self.phase = Phase::Running;
            let mut calls: Vec<EngineCall> = Vec::new();
            calls.push(EngineCall::InitConnections(p));
            assert(calls@ =~= seq![EngineCall::InitConnections(p)]);
            calls
        } else {
            self.phase = Phase::Finished;
            Vec::new()
        }
    }

    /// One drain of pending events in the run loop. Where destruction is now
    /// requested the loop ends and the engine is torn down; else a frame is due.
    pub fn drain_events(&mut self, events: &Vec<LifecycleEvent>) -> (r: Vec<EngineCall>)
        requires
            well_formed(*old(self)),
            old(self).phase == Phase::Running,
        ensures
            (*final(self), r@) == transition(*old(self), Input::Events(*events)),
            well_formed(*final(self)),
    {
        proof {
            lemma_step_well_formed(*self, Input::Events(*events));
        }
        let mut calls = self.app.handle_events(events);
        if self.app.destroy_requested {
            self.phase = Phase::Finished;
            teardown(&mut calls);
        } else {
            self.phase = Phase::AwaitingFrame;
        }
        calls
    }

    /// Records the outcome of one frame. Where the engine asks to leave the
    /// render loop the loop ends and the engine is torn down; a restart
    /// request is left to the engine.
    pub fn frame_processed(&mut self, exit_render_loop: bool, request_restart: bool) -> (r: Vec<EngineCall>)
        requires
            well_formed(*old(self)),
            old(self).phase == Phase::AwaitingFrame,
        ensures
            (*final(self), r@) == transition(*old(self), Input::Frame { exit_render_loop, request_restart }),
            well_formed(*final(self)),
    {
        proof {
            lemma_step_well_formed(*self, Input::Frame { exit_render_loop, request_restart });
        }
        let mut calls: Vec<EngineCall> = Vec::new();
        if exit_render_loop {
            self.phase = Phase::Finished;
            teardown(&mut calls);
        } else {
            self.phase = Phase::Running;
        }
        calls
    }

    /// Feeds one input to the controller and returns the calls the host must
    /// make, in order. An input that does not belong to the phase changes
    /// nothing and makes no call.
    pub fn step(&mut self, input: Input) -> (r: Vec<EngineCall>)
        requires
            well_formed(*old(self)),
        ensures
            (*final(self), r@) == transition(*old(self), input),
            well_formed(*final(self)),
    {
        proof {
            lemma_step_well_formed(*self, input);
        }
        match (self.phase, input) {
            (Phase::WaitingForWindow, Input::Events(es)) => self.wait_until_window_init(&es),
            (Phase::WindowCheck, Input::Window(present)) => self.check_window(present),
            (Phase::Initializing, Input::InitResult { success, properties, window_width, window_height }) =>
                self.init_finished(success, properties, window_width, window_height),
            (Phase::Running, Input::Events(es)) => self.drain_events(&es),
            (Phase::AwaitingFrame, Input::Frame { exit_render_loop, request_restart }) =>
                self.frame_processed(exit_render_loop, request_restart),
            _ => Vec::new(),
        }
    }
}

} // verus!
