use alxr_client_android::controller::{Controller, Input, Phase, Request};
use alxr_client_android::lifecycle::{AppData, EngineCall, LifecycleEvent, SystemProperties};

fn props(w: u32, h: u32) -> SystemProperties {
    SystemProperties { recommended_eye_width: w, recommended_eye_height: h }
}

fn events(es: &[LifecycleEvent]) -> Input {
    Input::Events(es.to_vec())
}

/// A controller that has initialized the engine with a 3664x1920 window.
fn running() -> Controller {
    let mut c = Controller::new();
    c.step(events(&[LifecycleEvent::InitWindow]));
    c.step(Input::Window(true));
    c.step(Input::InitResult {
        success: true,
        properties: props(1832, 1920),
        window_width: 3664,
        window_height: 1920,
    });
    c
}

#[test]
fn init_window_leads_to_one_init() {
    let mut c = Controller::new();
    assert_eq!(c.next_request(), Request::PollEvents { timeout_ms: 100 });
    assert_eq!(c.step(events(&[LifecycleEvent::InitWindow])), vec![]);
    assert_eq!(c.phase, Phase::WindowCheck);
    assert!(c.app.window_inited);
    assert_eq!(c.next_request(), Request::CheckWindow);
    assert_eq!(c.step(Input::Window(true)), vec![EngineCall::Init]);
    assert_eq!(c.phase, Phase::Initializing);
    assert_eq!(c.next_request(), Request::InitEngine);
}

#[test]
fn destroy_before_window_makes_no_init() {
    let mut c = Controller::new();
    assert_eq!(c.step(events(&[LifecycleEvent::Destroy])), vec![]);
    assert_eq!(c.phase, Phase::WindowCheck);
    assert_eq!(c.step(Input::Window(true)), vec![]);
    assert_eq!(c.phase, Phase::Finished);
    assert_eq!(c.next_request(), Request::Exit);
}

#[test]
fn engine_exit_ends_loop_with_teardown() {
    let mut c = running();
    assert_eq!(c.step(events(&[])), vec![]);
    assert_eq!(c.next_request(), Request::ProcessFrame);
    let calls = c.step(Input::Frame { exit_render_loop: true, request_restart: false });
    assert_eq!(calls, vec![EngineCall::Shutdown, EngineCall::Destroy]);
    assert_eq!(c.phase, Phase::Finished);
}

#[test]
fn frame_without_exit_keeps_running() {
    let mut c = running();
    c.step(events(&[]));
    assert_eq!(c.step(Input::Frame { exit_render_loop: false, request_restart: true }), vec![]);
    assert_eq!(c.phase, Phase::Running);
    assert_eq!(c.next_request(), Request::PollEvents { timeout_ms: 0 });
}

#[test]
fn events_before_window_keep_waiting() {
    let mut c = Controller::new();
    let calls = c.step(events(&[
        LifecycleEvent::Resume,
        LifecycleEvent::GainedFocus,
        LifecycleEvent::WindowResized,
        LifecycleEvent::Other,
    ]));
    assert_eq!(calls, vec![EngineCall::AcquireWifiLock, EngineCall::OnResume]);
    assert!(!c.app.window_inited);
    assert!(c.app.resumed);
    assert!(c.app.gained_focus);
    assert_eq!(c.phase, Phase::WaitingForWindow);
}

#[test]
fn window_stays_inited() {
    let mut c = running();
    c.step(events(&[LifecycleEvent::Pause, LifecycleEvent::LostFocus]));
    assert!(c.app.window_inited);
}

#[test]
fn destroy_ends_run_loop_in_one_poll() {
    let mut c = running();
    let calls = c.step(events(&[LifecycleEvent::Destroy, LifecycleEvent::Resume]));
    assert_eq!(calls, vec![EngineCall::Shutdown, EngineCall::Destroy]);
    assert_eq!(c.phase, Phase::Finished);
    assert!(c.app.destroy_requested);
    assert_eq!(c.step(events(&[LifecycleEvent::Pause])), vec![]);
    assert!(c.app.destroy_requested);
}

#[test]
fn init_failure_ends_run() {
    let mut c = Controller::new();
    c.step(events(&[LifecycleEvent::InitWindow]));
    c.step(Input::Window(true));
    let calls = c.step(Input::InitResult {
        success: false,
        properties: props(1, 1),
        window_width: 100,
        window_height: 50,
    });
    assert_eq!(calls, vec![]);
    assert_eq!(c.phase, Phase::Finished);
    assert_eq!(c.app.sys_properties, None);
}

#[test]
fn missing_window_ends_run() {
    let mut c = Controller::new();
    c.step(events(&[LifecycleEvent::InitWindow]));
    assert_eq!(c.step(Input::Window(false)), vec![]);
    assert_eq!(c.phase, Phase::Finished);
}

#[test]
fn init_overrides_eye_size() {
    let mut c = Controller::new();
    c.step(events(&[LifecycleEvent::InitWindow]));
    c.step(Input::Window(true));
    let calls = c.step(Input::InitResult {
        success: true,
        properties: props(2064, 2208),
        window_width: 3665,
        window_height: 1920,
    });
    assert_eq!(calls, vec![EngineCall::InitConnections(props(1832, 1920))]);
    assert_eq!(c.app.sys_properties, Some(props(1832, 1920)));
    assert_eq!(c.phase, Phase::Running);
}

#[test]
fn pause_then_resume_reconnects() {
    let mut c = running();
    let calls = c.step(events(&[LifecycleEvent::Pause, LifecycleEvent::Resume]));
    assert_eq!(
        calls,
        vec![
            EngineCall::Shutdown,
            EngineCall::OnPause,
            EngineCall::ReleaseWifiLock,
            EngineCall::AcquireWifiLock,
            EngineCall::OnResume,
            EngineCall::InitConnections(props(1832, 1920)),
        ]
    );
    assert!(c.app.resumed);
}

#[test]
fn pause_without_session() {
    let mut a = AppData::new();
    a.resumed = true;
    assert_eq!(a.pause(), vec![EngineCall::OnPause, EngineCall::ReleaseWifiLock]);
    assert!(!a.resumed);
    assert_eq!(a.resume(), vec![EngineCall::AcquireWifiLock, EngineCall::OnResume]);
    assert!(a.resumed);
}

#[test]
fn destroy_is_a_latch() {
    let mut a = AppData::new();
    a.handle_lifecycle_event(LifecycleEvent::Destroy);
    assert!(a.destroy_requested);
    assert_eq!(a.handle_lifecycle_event(LifecycleEvent::Resume), vec![]);
    assert!(a.resumed);
    assert_eq!(a.handle_lifecycle_event(LifecycleEvent::Pause), vec![]);
    assert!(!a.resumed);
    assert_eq!(a.handle_lifecycle_event(LifecycleEvent::InitWindow), vec![]);
    assert!(a.destroy_requested);
    assert!(a.window_inited);
}

#[test]
fn window_after_destroy_is_recorded_but_not_initialized() {
    let mut c = Controller::new();
    let calls = c.step(events(&[
        LifecycleEvent::Destroy,
        LifecycleEvent::InitWindow,
        LifecycleEvent::GainedFocus,
    ]));
    assert_eq!(calls, vec![]);
    assert!(c.app.window_inited);
    assert!(c.app.gained_focus);
    assert_eq!(c.phase, Phase::WindowCheck);
    assert_eq!(c.step(Input::Window(true)), vec![]);
    assert_eq!(c.phase, Phase::Finished);
}

#[test]
fn reconnect_after_init_keeps_eye_size() {
    let mut c = running();
    let mut all = Vec::new();
    all.extend(c.step(events(&[LifecycleEvent::Pause])));
    all.extend(c.step(Input::Frame { exit_render_loop: false, request_restart: false }));
    all.extend(c.step(events(&[LifecycleEvent::Resume])));
    assert_eq!(all.last(), Some(&EngineCall::InitConnections(props(1832, 1920))));
    assert_eq!(c.app.sys_properties, Some(props(1832, 1920)));
}

#[test]
fn teardown_once_per_run() {
    let mut c = running();
    let mut all = Vec::new();
    all.extend(c.step(events(&[])));
    all.extend(c.step(Input::Frame { exit_render_loop: false, request_restart: false }));
    all.extend(c.step(events(&[LifecycleEvent::Destroy])));
    all.extend(c.step(Input::Frame { exit_render_loop: true, request_restart: false }));
    all.extend(c.step(events(&[LifecycleEvent::Destroy])));
    assert_eq!(all, vec![EngineCall::Shutdown, EngineCall::Destroy]);
}

#[test]
fn mismatched_input_is_ignored() {
    let mut c = Controller::new();
    let before = c;
    assert_eq!(c.step(Input::Frame { exit_render_loop: true, request_restart: false }), vec![]);
    assert_eq!(c, before);
}
