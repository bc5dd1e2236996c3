//! The application state record and how single lifecycle events change it.

use vstd::prelude::*;

verus! {

/// What the engine reports of a session; the controller overrides the
/// recommended per-eye render size.
#[derive(Clone, Copy, Debug, PartialEq, Eq, Structural)]
pub struct SystemProperties {
    pub recommended_eye_width: u32,
    pub recommended_eye_height: u32,
}

/// A lifecycle notification delivered by the platform.
#[derive(Clone, Copy, Debug, PartialEq, Eq, Structural)]
pub enum LifecycleEvent {
    InitWindow,
    WindowResized,
    GainedFocus,
    LostFocus,
    Pause,
    Resume,
    Destroy,
    /// Any other notification; it changes nothing.
    Other,
}

/// A call that the host must make into the engine or the platform, in order.
#[derive(Clone, Copy, Debug, PartialEq, Eq, Structural)]
pub enum EngineCall {
    /// Build the initialization descriptor and initialize the engine.
    Init,
    /// Set up (or re-establish) the engine's connections.
    InitConnections(SystemProperties),
    /// Tell the engine the activity was paused.
    OnPause,
    /// Tell the engine the activity was resumed.
    OnResume,
    /// Tear down the engine's session.
    Shutdown,
    /// Destroy the engine.
    Destroy,
    /// Take the exclusive wireless-radio lock.
    AcquireWifiLock,
    /// Give the exclusive wireless-radio lock back.
    ReleaseWifiLock,
}

/// The application state record.
#[derive(Clone, Copy, Debug, PartialEq, Eq, Structural)]
pub struct AppData {
    pub destroy_requested: bool,
    pub resumed: bool,
    pub gained_focus: bool,
    pub window_inited: bool,
    pub sys_properties: Option<SystemProperties>,
}

/// The calls that a pause makes: a session teardown where a session was set
/// up, then the pause notification and the release of the radio lock.
pub open spec fn pause_calls(s: AppData) -> Seq<EngineCall> {
    if s.sys_properties.is_some() {
        seq![EngineCall::Shutdown, EngineCall::OnPause, EngineCall::ReleaseWifiLock]
    } else {
        seq![EngineCall::OnPause, EngineCall::ReleaseWifiLock]
    }
}

/// The calls that a resume makes: the radio lock, the resume notification,
/// and where a session was set up, its connections again.
pub open spec fn resume_calls(s: AppData) -> Seq<EngineCall> {
    match s.sys_properties {
        Some(p) => seq![
            EngineCall::AcquireWifiLock,
            EngineCall::OnResume,
            EngineCall::InitConnections(p),
        ],
        None => seq![EngineCall::AcquireWifiLock, EngineCall::OnResume],
    }
}

/// The state after one event. The flags change in the same way before and
/// after destruction was requested.
pub open spec fn after_event(s: AppData, e: LifecycleEvent) -> AppData {
    match e {
        LifecycleEvent::InitWindow => AppData { window_inited: true, ..s },
        LifecycleEvent::GainedFocus => AppData { gained_focus: true, ..s },
        LifecycleEvent::LostFocus => AppData { gained_focus: false, ..s },
        LifecycleEvent::Pause => AppData { resumed: false, ..s },
        LifecycleEvent::Resume => AppData { resumed: true, ..s },
        LifecycleEvent::Destroy => AppData { destroy_requested: true, ..s },
        _ => s,
    }
}

/// The calls that one event makes. Once destruction was requested, events
/// make none: only the engine teardown may follow.
pub open spec fn event_calls(s: AppData, e: LifecycleEvent) -> Seq<EngineCall> {
    if s.destroy_requested {
        seq![]
    } else {
        match e {
            LifecycleEvent::Pause => pause_calls(s),
            LifecycleEvent::Resume => resume_calls(s),
            _ => seq![],
        }
    }
}

/// The state after a sequence of events, handled in order.
pub open spec fn after_events(s: AppData, es: Seq<LifecycleEvent>) -> AppData
    decreases es.len(),
{
    if es.len() == 0 {
        s
    } else {
        after_event(after_events(s, es.drop_last()), es.last())
    }
}

/// The calls that a sequence of events makes, handled in order.
pub open spec fn events_calls(s: AppData, es: Seq<LifecycleEvent>) -> Seq<EngineCall>
    decreases es.len(),
{
    if es.len() == 0 {
        seq![]
    } else {
        events_calls(s, es.drop_last()) + event_calls(after_events(s, es.drop_last()), es.last())
    }
}

impl AppData {
    /// The state at process start: nothing requested, no window, no session.
    pub open spec fn new_spec() -> AppData {
        AppData {
            destroy_requested: false,
            resumed: false,
            gained_focus: false,
            window_inited: false,
            sys_properties: None,
        }
    }

    /// The state at process start: nothing requested, no window, no session.
    pub fn new() -> (r: AppData)
        ensures
            r == AppData::new_spec(),
    {
        AppData {
            destroy_requested: false,
            resumed: false,
            gained_focus: false,
            window_inited: false,
            sys_properties: None,
        }
    }

    /// Pauses: clears `resumed`, tears the session down where one was set up,
    /// then notifies the engine and releases the radio lock.
    pub fn pause(&mut self) -> (r: Vec<EngineCall>)
        ensures
            *final(self) == (AppData { resumed: false, ..*old(self) }),
            r@ == pause_calls(*old(self)),
    {
        self.resumed = false;
        let mut calls: Vec<EngineCall> = Vec::new();
        if self.sys_properties.is_some() {
            calls.push(EngineCall::Shutdown);
        }
        calls.push(EngineCall::OnPause);
        calls.push(EngineCall::ReleaseWifiLock);
        proof {
            assert(calls@ =~= pause_calls(*old(self)));
        }
        calls
    }

    /// Resumes: takes the radio lock, notifies the engine, re-establishes the
    /// connections where a session was set up, and sets `resumed`.
    pub fn resume(&mut self) -> (r: Vec<EngineCall>)
        ensures
            *final(self) == (AppData { resumed: true, ..*old(self) }),
            r@ == resume_calls(*old(self)),
    {
        let mut calls: Vec<EngineCall> = Vec::new();
        calls.push(EngineCall::AcquireWifiLock);
        calls.push(EngineCall::OnResume);
        match self.sys_properties {
            Some(p) => calls.push(EngineCall::InitConnections(p)),
            None => {},
        }
        self.resumed = true;
        proof {
            assert(calls@ =~= resume_calls(*old(self)));
        }
        calls
    }

    /// Applies one lifecycle event and returns the calls it makes.
    pub fn handle_lifecycle_event(&mut self, event: LifecycleEvent) -> (r: Vec<EngineCall>)
        ensures
            *final(self) == after_event(*old(self), event),
            r@ == event_calls(*old(self), event),
    {
        match event {
            LifecycleEvent::InitWindow => {
                self.window_inited = true;
                Vec::new()
            },
            LifecycleEvent::GainedFocus => {
                self.gained_focus = true;
                Vec::new()
            },
            LifecycleEvent::LostFocus => {
                self.gained_focus = false;
                Vec::new()
            },
            LifecycleEvent::Pause => {
                if self.destroy_requested {
                    self.resumed = false;
                    Vec::new()
                } else {
                    self.pause()
                }
            },
            LifecycleEvent::Resume => {
                if self.destroy_requested {
                    self.resumed = true;
                    Vec::new()
                } else {
                    self.resume()
                }
            },
            LifecycleEvent::Destroy => {
                self.destroy_requested = true;
                Vec::new()
            },
            _ => Vec::new(),
        }
    }

    /// Applies a batch of events in order and returns the calls they make, in
    /// order.
    pub fn handle_events(&mut self, events: &Vec<LifecycleEvent>) -> (r: Vec<EngineCall>)
        ensures
            *final(self) == after_events(*old(self), events@),
            r@ == events_calls(*old(self), events@),
    {
        let ghost start = *self;
        let mut calls: Vec<EngineCall> = Vec::new();
        let mut i: usize = 0;
        while i < events.len()
            invariant
                i <= events@.len(),
                *self == after_events(start, events@.take(i as int)),
                calls@ == events_calls(start, events@.take(i as int)),
            decreases events@.len() - i,
        {
            let ghost before = *self;
            let mut more = self.handle_lifecycle_event(events[i]);
            proof {
                let t = events@.take(i + 1);
                assert(t.drop_last() =~= events@.take(i as int));
                assert(t.last() == events@[i as int]);
            }
            calls.append(&mut more);
            i = i + 1;
        }
        assert(events@.take(i as int) =~= events@);
        calls
    }
}

} // verus!
