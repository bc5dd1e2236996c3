//! Properties of whole runs of the controller, proved over the transition
//! relation that `Controller::step` implements.

use vstd::prelude::*;
use crate::lifecycle::{
    AppData, EngineCall, LifecycleEvent, SystemProperties, after_event, after_events,
    event_calls, events_calls,
};
use crate::controller::{
    Controller, Input, Phase, run, start, teardown_calls, transition, well_formed,
};

verus! {

/// How many times `x` occurs in `s`.
pub open spec fn count_of(s: Seq<EngineCall>, x: EngineCall) -> nat
    decreases s.len(),
{
    if s.len() == 0 {
        0
    } else {
        count_of(s.drop_last(), x) + if s.last() == x { 1nat } else { 0nat }
    }
}

/// `e` occurs in none of the event batches among the inputs.
pub open spec fn no_event_in(ins: Seq<Input>, e: LifecycleEvent) -> bool {
    forall|k: int|
        0 <= k < ins.len() ==> match #[trigger] ins[k] {
            Input::Events(es) => !es@.contains(e),
            _ => true,
        }
}

proof fn lemma_count_add(a: Seq<EngineCall>, b: Seq<EngineCall>, x: EngineCall)
    ensures
        count_of(a + b, x) == count_of(a, x) + count_of(b, x),
    decreases b.len(),
{
    if b.len() == 0 {
        assert(a + b =~= a);
    } else {
        lemma_count_add(a, b.drop_last(), x);
        assert((a + b).drop_last() =~= a + b.drop_last());
        assert((a + b).last() == b.last());
    }
}

proof fn lemma_count_absent(s: Seq<EngineCall>, x: EngineCall)
    requires
        !s.contains(x),
    ensures
        count_of(s, x) == 0,
    decreases s.len(),
{
    if s.len() > 0 {
        assert(s.drop_last().contains(x) ==> s.contains(x)) by {
            if s.drop_last().contains(x) {
                let k = choose|k: int| 0 <= k < s.drop_last().len() && s.drop_last()[k] == x;
                assert(s[k] == x);
            }
        }
        assert(s[s.len() - 1] == s.last());
        lemma_count_absent(s.drop_last(), x);
    }
}

/// Events never change the session properties, never clear `window_inited` or
/// `destroy_requested`, and never make an `Init` or `Destroy` call; they make a
/// `Shutdown` call only through a pause.
proof fn lemma_events(s: AppData, es: Seq<LifecycleEvent>)
    ensures
        after_events(s, es).sys_properties == s.sys_properties,
        s.window_inited ==> after_events(s, es).window_inited,
        s.destroy_requested ==> after_events(s, es).destroy_requested,
        s.destroy_requested ==> events_calls(s, es) == Seq::<EngineCall>::empty(),
        !es.contains(LifecycleEvent::InitWindow) ==> after_events(s, es).window_inited
            == s.window_inited,
        !events_calls(s, es).contains(EngineCall::Init),
        !events_calls(s, es).contains(EngineCall::Destroy),
        !es.contains(LifecycleEvent::Pause) ==> !events_calls(s, es).contains(EngineCall::Shutdown),
        forall|q: SystemProperties|
            #![trigger events_calls(s, es).contains(EngineCall::InitConnections(q))]
            events_calls(s, es).contains(EngineCall::InitConnections(q)) ==> s.sys_properties
                == Some(q),
    decreases es.len(),
{
    if es.len() > 0 {
        let init = es.drop_last();
        lemma_events(s, init);
        let prev = after_events(s, init);
        let e = es.last();
        assert(es[es.len() - 1] == e);
        assert(!es.contains(LifecycleEvent::InitWindow) ==> !init.contains(LifecycleEvent::InitWindow)) by {
            if init.contains(LifecycleEvent::InitWindow) {
                let k = choose|k: int| 0 <= k < init.len() && init[k] == LifecycleEvent::InitWindow;
                assert(es[k] == LifecycleEvent::InitWindow);
            }
        }
        assert(!es.contains(LifecycleEvent::Pause) ==> !init.contains(LifecycleEvent::Pause)) by {
            if init.contains(LifecycleEvent::Pause) {
                let k = choose|k: int| 0 <= k < init.len() && init[k] == LifecycleEvent::Pause;
                assert(es[k] == LifecycleEvent::Pause);
            }
        }
        let a = events_calls(s, init);
        let b = event_calls(prev, e);
        assert(events_calls(s, es) == a + b);
        if s.destroy_requested {
            assert(a + b =~= Seq::<EngineCall>::empty());
        }
        assert forall|q: SystemProperties| #[trigger] b.contains(EngineCall::InitConnections(q))
            implies prev.sys_properties == Some(q) by {
            let k = choose|k: int| 0 <= k < b.len() && b[k] == EngineCall::InitConnections(q);
        }
        assert forall|q: SystemProperties|
            #[trigger] events_calls(s, es).contains(EngineCall::InitConnections(q)) implies s.sys_properties
            == Some(q) by {
            lemma_contains_concat(a, b, EngineCall::InitConnections(q));
        }
        assert forall|x: EngineCall| (a + b).contains(x) implies a.contains(x) || b.contains(x) by {
            let k = choose|k: int| 0 <= k < (a + b).len() && (a + b)[k] == x;
            if k < a.len() {
                assert(a[k] == x);
            } else {
                assert(b[k - a.len()] == x);
            }
        }
    }
}

/// Once a window was reported, it stays reported for the rest of the run.
pub proof fn lemma_window_inited_stays(c: Controller, ins: Seq<Input>)
    requires
        c.app.window_inited,
    ensures
        run(c, ins).0.app.window_inited,
    decreases ins.len(),
{
    if ins.len() > 0 {
        lemma_window_inited_stays(c, ins.drop_last());
        let prev = run(c, ins.drop_last()).0;
        match ins.last() {
            Input::Events(es) => lemma_events(prev.app, es@),
            _ => {},
        }
    }
}

/// Once destruction was requested, the request stays for the rest of the run.
pub proof fn lemma_destroy_requested_stays(c: Controller, ins: Seq<Input>)
    requires
        c.app.destroy_requested,
    ensures
        run(c, ins).0.app.destroy_requested,
    decreases ins.len(),
{
    if ins.len() > 0 {
        lemma_destroy_requested_stays(c, ins.drop_last());
        let prev = run(c, ins.drop_last()).0;
        match ins.last() {
            Input::Events(es) => lemma_events(prev.app, es@),
            _ => {},
        }
    }
}

/// Every step keeps the controller consistent.
pub proof fn lemma_step_well_formed(c: Controller, i: Input)
    requires
        well_formed(c),
    ensures
        well_formed(transition(c, i).0),
{
    match i {
        Input::Events(es) => lemma_events(c.app, es@),
        _ => {},
    }
}

/// A poll that brings a destruction request ends the loop it belongs to: the
/// wait for the window moves on to the window check, which then ends the run
/// whatever it finds, and the run loop ends at once with the engine teardown.
pub proof fn lemma_destroy_ends_loops(c: Controller, es: Vec<LifecycleEvent>, present: bool)
    requires
        well_formed(c),
        c.phase == Phase::WaitingForWindow || c.phase == Phase::Running,
        transition(c, Input::Events(es)).0.app.destroy_requested,
    ensures
        c.phase == Phase::WaitingForWindow ==> transition(c, Input::Events(es)).0.phase
            == Phase::WindowCheck && transition(
            transition(c, Input::Events(es)).0,
            Input::Window(present),
        ) == (Controller { phase: Phase::Finished, ..transition(c, Input::Events(es)).0 },
        Seq::<EngineCall>::empty()),
        c.phase == Phase::Running ==> transition(c, Input::Events(es)).0.phase == Phase::Finished
            && transition(c, Input::Events(es)).1 == events_calls(c.app, es@) + teardown_calls(),
{
}

/// A finished run stays finished: no input changes it or makes a call.
pub proof fn lemma_finished_is_final(c: Controller, ins: Seq<Input>)
    requires
        c.phase == Phase::Finished,
    ensures
        run(c, ins) == (c, Seq::<EngineCall>::empty()),
    decreases ins.len(),
{
    if ins.len() > 0 {
        lemma_finished_is_final(c, ins.drop_last());
        assert(Seq::<EngineCall>::empty() + Seq::<EngineCall>::empty() =~= Seq::<EngineCall>::empty());
    }
}

/// Where engine initialization fails, the run ends there: the run loop is
/// never entered, no further call is made and no session properties are
/// recorded, whatever follows.
pub proof fn lemma_init_failure_ends_run(
    c: Controller,
    properties: SystemProperties,
    window_width: u32,
    window_height: u32,
    ins: Seq<Input>,
)
    requires
        well_formed(c),
        c.phase == Phase::Initializing,
    ensures
        ({
            let after = transition(
                c,
                Input::InitResult { success: false, properties, window_width, window_height },
            );
            &&& after.0.phase == Phase::Finished
            &&& after.0.app.sys_properties.is_none()
            &&& after.1 == Seq::<EngineCall>::empty()
            &&& run(after.0, ins) == (after.0, Seq::<EngineCall>::empty())
        }),
{
    let after = transition(
        c,
        Input::InitResult { success: false, properties, window_width, window_height },
    );
    lemma_finished_is_final(after.0, ins);
}

/// After a successful initialization the recorded per-eye size is half the
/// window's width by its full height, whatever the engine recommended, and
/// the connections are set up with exactly those properties.
pub proof fn lemma_init_success_eye_size(
    c: Controller,
    properties: SystemProperties,
    window_width: u32,
    window_height: u32,
)
    requires
        c.phase == Phase::Initializing,
    ensures
        ({
            let after = transition(
                c,
                Input::InitResult { success: true, properties, window_width, window_height },
            );
            let p = SystemProperties {
                recommended_eye_width: window_width / 2,
                recommended_eye_height: window_height,
            };
            &&& after.0.phase == Phase::Running
            &&& after.0.app.sys_properties == Some(p)
            &&& after.1 == seq![EngineCall::InitConnections(p)]
        }),
{
}

/// A pause directly followed by a resume, with a session set up, tears the
/// session down once and sets its connections up once again, releasing the
/// radio lock before taking it again.
pub proof fn lemma_pause_then_resume(s: AppData, p: SystemProperties)
    requires
        !s.destroy_requested,
        s.sys_properties == Some(p),
    ensures
        events_calls(s, seq![LifecycleEvent::Pause, LifecycleEvent::Resume]) == seq![
            EngineCall::Shutdown,
            EngineCall::OnPause,
            EngineCall::ReleaseWifiLock,
            EngineCall::AcquireWifiLock,
            EngineCall::OnResume,
            EngineCall::InitConnections(p),
        ],
        after_events(s, seq![LifecycleEvent::Pause, LifecycleEvent::Resume]) == (AppData {
            resumed: true,
            ..s
        }),
{
    let es = seq![LifecycleEvent::Pause, LifecycleEvent::Resume];
    let one = es.drop_last();
    assert(one =~= seq![LifecycleEvent::Pause]);
    assert(one.drop_last() =~= Seq::<LifecycleEvent>::empty());
    assert(es.last() == LifecycleEvent::Resume);
    assert(one.last() == LifecycleEvent::Pause);
    assert(after_events(s, one.drop_last()) == s);
    assert(events_calls(s, one.drop_last()) == Seq::<EngineCall>::empty());
    let s1 = after_events(s, one);
    assert(s1 == after_event(s, LifecycleEvent::Pause));
    assert(events_calls(s, one) == Seq::<EngineCall>::empty() + event_calls(s, LifecycleEvent::Pause));
    assert(after_events(s, es) == after_event(s1, LifecycleEvent::Resume));
    assert(events_calls(s, es) == events_calls(s, one) + event_calls(s1, LifecycleEvent::Resume));
    assert(after_events(s, es) =~= (AppData { resumed: true, ..s }));
    let calls = events_calls(s, es);
    assert(calls =~= seq![
        EngineCall::Shutdown,
        EngineCall::OnPause,
        EngineCall::ReleaseWifiLock,
        EngineCall::AcquireWifiLock,
        EngineCall::OnResume,
        EngineCall::InitConnections(p),
    ]);
}

proof fn lemma_no_event_prefix(ins: Seq<Input>, e: LifecycleEvent)
    requires
        ins.len() > 0,
        no_event_in(ins, e),
    ensures
        no_event_in(ins.drop_last(), e),
        match ins.last() {
            Input::Events(es) => !es@.contains(e),
            _ => true,
        },
{
    assert forall|k: int| 0 <= k < ins.drop_last().len() implies match #[trigger] ins.drop_last()[k] {
        Input::Events(es) => !es@.contains(e),
        _ => true,
    } by {
        assert(ins.drop_last()[k] == ins[k]);
    }
    assert(ins[ins.len() - 1] == ins.last());
}

/// Until a window-init event arrives, no window is reported and the engine is
/// never initialized.
pub proof fn lemma_no_init_before_window(ins: Seq<Input>)
    requires
        no_event_in(ins, LifecycleEvent::InitWindow),
    ensures
        !run(start(), ins).0.app.window_inited,
        !run(start(), ins).1.contains(EngineCall::Init),
    decreases ins.len(),
{
    lemma_no_init_before_window_inv(ins);
}

proof fn lemma_no_init_before_window_inv(ins: Seq<Input>)
    requires
        no_event_in(ins, LifecycleEvent::InitWindow),
    ensures
        ({
            let r = run(start(), ins);
            &&& !r.0.app.window_inited
            &&& r.0.app.sys_properties.is_none()
            &&& (r.0.phase == Phase::WaitingForWindow && !r.0.app.destroy_requested
                || r.0.phase == Phase::WindowCheck && r.0.app.destroy_requested
                || r.0.phase == Phase::Finished)
            &&& !r.1.contains(EngineCall::Init)
        }),
    decreases ins.len(),
{
    if ins.len() > 0 {
        lemma_no_event_prefix(ins, LifecycleEvent::InitWindow);
        lemma_no_init_before_window_inv(ins.drop_last());
        let prev = run(start(), ins.drop_last());
        let t = transition(prev.0, ins.last());
        match ins.last() {
            Input::Events(es) => lemma_events(prev.0.app, es@),
            _ => {},
        }
        assert(!t.1.contains(EngineCall::Init));
        assert forall|x: EngineCall| (prev.1 + t.1).contains(x) implies prev.1.contains(x)
            || t.1.contains(x) by {
            let k = choose|k: int| 0 <= k < (prev.1 + t.1).len() && (prev.1 + t.1)[k] == x;
            if k < prev.1.len() {
                assert(prev.1[k] == x);
            } else {
                assert(t.1[k - prev.1.len()] == x);
            }
        }
    }
}

/// The calls end with the engine teardown: a session teardown, then the
/// destruction of the engine.
pub open spec fn ends_with_teardown(s: Seq<EngineCall>) -> bool {
    s.len() >= 2 && s[s.len() - 2] == EngineCall::Shutdown && s.last() == EngineCall::Destroy
}

proof fn lemma_append_teardown(s: Seq<EngineCall>)
    ensures
        ends_with_teardown(s + teardown_calls()),
{
    let t = s + teardown_calls();
    assert(t[t.len() - 2] == teardown_calls()[0]);
    assert(t[t.len() - 1] == teardown_calls()[1]);
}

proof fn lemma_count_teardown(x: EngineCall)
    requires
        x == EngineCall::Shutdown || x == EngineCall::Destroy,
    ensures
        count_of(teardown_calls(), x) == 1,
{
    let t = teardown_calls();
    assert(t.drop_last() =~= seq![EngineCall::Shutdown]);
    assert(t.drop_last().drop_last() =~= Seq::<EngineCall>::empty());
    assert(t.last() == EngineCall::Destroy);
    assert(t.drop_last().last() == EngineCall::Shutdown);
    assert(count_of(t.drop_last().drop_last(), x) == 0);
    assert(count_of(t.drop_last(), x) == if x == EngineCall::Shutdown { 1nat } else { 0nat });
}

proof fn lemma_teardown_count(c: Controller, ins: Seq<Input>, x: EngineCall)
    requires
        c.phase != Phase::Finished,
        x == EngineCall::Destroy || x == EngineCall::Shutdown && no_event_in(
            ins,
            LifecycleEvent::Pause,
        ),
    ensures
        ({
            let r = run(c, ins);
            &&& count_of(r.1, x) <= 1
            &&& r.0.phase != Phase::Finished ==> count_of(r.1, x) == 0
            &&& count_of(r.1, x) == 1 ==> ends_with_teardown(r.1)
            &&& (c.phase == Phase::Running || c.phase == Phase::AwaitingFrame) ==> (
            r.0.phase == Phase::Running || r.0.phase == Phase::AwaitingFrame || count_of(r.1, x)
                == 1)
        }),
    decreases ins.len(),
{
    if ins.len() == 0 {
        assert(count_of(Seq::<EngineCall>::empty(), x) == 0);
    } else {
        if x == EngineCall::Shutdown {
            lemma_no_event_prefix(ins, LifecycleEvent::Pause);
        }
        lemma_teardown_count(c, ins.drop_last(), x);
        let prev = run(c, ins.drop_last());
        let t = transition(prev.0, ins.last());
        lemma_count_add(prev.1, t.1, x);
        lemma_count_teardown(x);
        if t.1.len() == 0 {
            assert(prev.1 + t.1 =~= prev.1);
        }
        if prev.0.phase != Phase::Finished {
            match ins.last() {
                Input::Events(es) => {
                    lemma_events(prev.0.app, es@);
                    let ec = events_calls(prev.0.app, es@);
                    lemma_count_absent(ec, x);
                    if prev.0.phase == Phase::Running && after_events(
                        prev.0.app,
                        es@,
                    ).destroy_requested {
                        lemma_count_add(ec, teardown_calls(), x);
                        lemma_append_teardown(prev.1 + ec);
                        assert(prev.1 + (ec + teardown_calls()) =~= (prev.1 + ec) + teardown_calls());
                    }
                },
                Input::Window(_) => {
                    lemma_count_absent(t.1, x);
                },
                Input::InitResult { .. } => {
                    lemma_count_absent(t.1, x);
                },
                Input::Frame { exit_render_loop, .. } => {
                    if !(prev.0.phase == Phase::AwaitingFrame && exit_render_loop) {
                        lemma_count_absent(t.1, x);
                    } else {
                        lemma_append_teardown(prev.1);
                    }
                },
            }
        } else {
            lemma_count_absent(t.1, x);
        }
    }
}

/// The engine is destroyed at most once in a run, only when the run ends, and
/// exactly once where the run loop was entered and the run ended, whichever
/// way the loop was left; its destruction is then the last call, right after
/// the session teardown. Where no pause event arrives, the session teardown
/// too is made at most once, and exactly once where the loop was entered and
/// the run ended.
pub proof fn lemma_teardown_once(c: Controller, ins: Seq<Input>)
    requires
        c.phase != Phase::Finished,
    ensures
        ({
            let r = run(c, ins);
            &&& count_of(r.1, EngineCall::Destroy) <= 1
            &&& r.0.phase != Phase::Finished ==> count_of(r.1, EngineCall::Destroy) == 0
            &&& count_of(r.1, EngineCall::Destroy) == 1 ==> ends_with_teardown(r.1)
            &&& (c.phase == Phase::Running || c.phase == Phase::AwaitingFrame) && r.0.phase
                == Phase::Finished ==> count_of(r.1, EngineCall::Destroy) == 1
            &&& no_event_in(ins, LifecycleEvent::Pause) ==> {
                &&& count_of(r.1, EngineCall::Shutdown) <= 1
                &&& r.0.phase != Phase::Finished ==> count_of(r.1, EngineCall::Shutdown) == 0
                &&& (c.phase == Phase::Running || c.phase == Phase::AwaitingFrame) && r.0.phase
                    == Phase::Finished ==> count_of(r.1, EngineCall::Shutdown) == 1
            }
        }),
{
    lemma_teardown_count(c, ins, EngineCall::Destroy);
    if no_event_in(ins, LifecycleEvent::Pause) {
        lemma_teardown_count(c, ins, EngineCall::Shutdown);
    }
}

/// `s` holds no connection set-up, whatever the properties.
pub open spec fn no_connections(s: Seq<EngineCall>) -> bool {
    forall|q: SystemProperties| !#[trigger] s.contains(EngineCall::InitConnections(q))
}

/// Every connection set-up in `s` is made with the properties `p`.
pub open spec fn connections_with(s: Seq<EngineCall>, p: SystemProperties) -> bool {
    forall|q: SystemProperties| #[trigger] s.contains(EngineCall::InitConnections(q)) ==> q == p
}

/// Every engine initialization among the inputs fails.
pub open spec fn init_always_fails(ins: Seq<Input>) -> bool {
    forall|k: int|
        0 <= k < ins.len() ==> match #[trigger] ins[k] {
            Input::InitResult { success, .. } => !success,
            _ => true,
        }
}

proof fn lemma_contains_concat(a: Seq<EngineCall>, b: Seq<EngineCall>, x: EngineCall)
    ensures
        (a + b).contains(x) == (a.contains(x) || b.contains(x)),
{
    if (a + b).contains(x) {
        let k = choose|k: int| 0 <= k < (a + b).len() && (a + b)[k] == x;
        if k < a.len() {
            assert(a[k] == x);
        } else {
            assert(b[k - a.len()] == x);
        }
    }
    if a.contains(x) {
        let k = choose|k: int| 0 <= k < a.len() && a[k] == x;
        assert((a + b)[k] == x);
    }
    if b.contains(x) {
        let k = choose|k: int| 0 <= k < b.len() && b[k] == x;
        assert((a + b)[a.len() + k] == x);
    }
}

/// Where engine initialization fails, no session properties are ever
/// recorded, the run loop is never entered and no connection is ever set up,
/// over the whole run from process start.
pub proof fn lemma_failed_init_no_connections(ins: Seq<Input>)
    requires
        init_always_fails(ins),
    ensures
        ({
            let r = run(start(), ins);
            &&& r.0.app.sys_properties.is_none()
            &&& r.0.phase != Phase::Running && r.0.phase != Phase::AwaitingFrame
            &&& no_connections(r.1)
        }),
    decreases ins.len(),
{
    if ins.len() > 0 {
        assert(init_always_fails(ins.drop_last())) by {
            assert forall|k: int| 0 <= k < ins.drop_last().len() implies match #[trigger] ins.drop_last()[k] {
                Input::InitResult { success, .. } => !success,
                _ => true,
            } by {
                assert(ins.drop_last()[k] == ins[k]);
            }
        }
        assert(ins[ins.len() - 1] == ins.last());
        lemma_failed_init_no_connections(ins.drop_last());
        let prev = run(start(), ins.drop_last());
        let t = transition(prev.0, ins.last());
        match ins.last() {
            Input::Events(es) => lemma_events(prev.0.app, es@),
            _ => {},
        }
        assert forall|q: SystemProperties| !#[trigger] (prev.1 + t.1).contains(
            EngineCall::InitConnections(q),
        ) by {
            lemma_contains_concat(prev.1, t.1, EngineCall::InitConnections(q));
        }
    }
}

/// Once the run loop was entered with the properties `p`, they stay recorded,
/// and every later connection set-up, on a resume, is made with them.
pub proof fn lemma_reconnect_same_properties(c: Controller, p: SystemProperties, ins: Seq<Input>)
    requires
        c.phase == Phase::Running || c.phase == Phase::AwaitingFrame || c.phase == Phase::Finished,
        c.app.sys_properties == Some(p),
    ensures
        ({
            let r = run(c, ins);
            &&& r.0.phase == Phase::Running || r.0.phase == Phase::AwaitingFrame || r.0.phase
                == Phase::Finished
            &&& r.0.app.sys_properties == Some(p)
            &&& connections_with(r.1, p)
        }),
    decreases ins.len(),
{
    if ins.len() > 0 {
        lemma_reconnect_same_properties(c, p, ins.drop_last());
        let prev = run(c, ins.drop_last());
        let t = transition(prev.0, ins.last());
        match ins.last() {
            Input::Events(es) => lemma_events(prev.0.app, es@),
            _ => {},
        }
        assert forall|q: SystemProperties| #[trigger] (prev.1 + t.1).contains(
            EngineCall::InitConnections(q),
        ) implies q == p by {
            lemma_contains_concat(prev.1, t.1, EngineCall::InitConnections(q));
            if t.1 != Seq::<EngineCall>::empty() && prev.0.phase == Phase::Running {
                match ins.last() {
                    Input::Events(es) => {
                        let ec = events_calls(prev.0.app, es@);
                        if after_events(prev.0.app, es@).destroy_requested {
                            lemma_contains_concat(ec, teardown_calls(), EngineCall::InitConnections(q));
                        }
                    },
                    _ => {},
                }
            }
        }
    }
}

} // verus!
