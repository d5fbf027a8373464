use elffycore::engine::{create_screen, Engine, HostCall, LoopControlFlow, PollTuning, WheelDelta, WindowEventData};
use elffycore::error_handler::{ErrorDelivery, ErrorHub, ThreadErrorCounter};
use elffycore::input::MouseButton;
use elffycore::keycode::KeyCode;
use elffycore::registry::ScreenIdData;
use elffycore::screen::{NativeWindowId, PresentMode, ScreenConfig, ScreenId, WindowStyle};

fn config(width: u32, height: u32, style: WindowStyle) -> ScreenConfig {
    ScreenConfig { style, width, height, backend: 0, present_mode: PresentMode::Fifo }
}

#[test]
fn start_while_running_fails_and_leaves_engine_unaffected() {
    let mut engine = Engine::new();
    let s1 = config(800, 600, WindowStyle::Default);
    assert!(engine.start(s1).is_ok());
    assert!(engine.is_running());

    let again = engine.start(config(100, 100, WindowStyle::Fixed));
    let err = again.unwrap_err();
    assert_eq!(err.message(), "The engine is already running");
    assert!(engine.is_running());
    // The queued initial request of the first start is still the only one.
    assert_eq!(engine.take_create_request(), Some(s1));
    assert_eq!(engine.take_create_request(), None);
}

#[test]
fn start_after_clean_stop_succeeds() {
    let mut engine = Engine::new();
    assert!(engine.start(config(800, 600, WindowStyle::Default)).is_ok());
    engine.take_create_request();
    engine.finish();
    assert!(!engine.is_running());
    assert!(engine.start(config(640, 480, WindowStyle::Fixed)).is_ok());
    assert!(engine.is_running());
}

#[test]
fn create_screen_fails_with_not_running_when_stopped() {
    let mut engine = Engine::new();
    let mut hub = ErrorHub::new();
    let mut counter = ThreadErrorCounter::new();
    let (envelope, delivery) =
        create_screen(&mut engine, &mut hub, &mut counter, config(320, 200, WindowStyle::Default));
    assert_eq!(envelope.err_count, 1);
    match delivery {
        Some(ErrorDelivery::Diagnostic { message, .. }) => {
            assert_eq!(message, "The engine is not running");
        }
        other => panic!("expected a diagnostic delivery, got {:?}", other.is_some()),
    }
}

#[test]
fn create_screen_enqueues_while_running() {
    let mut engine = Engine::new();
    let mut hub = ErrorHub::new();
    let mut counter = ThreadErrorCounter::new();
    let s1 = config(800, 600, WindowStyle::Default);
    let s2 = config(400, 300, WindowStyle::Fixed);
    engine.start(s1).unwrap();
    let (envelope, delivery) = create_screen(&mut engine, &mut hub, &mut counter, s2);
    assert_eq!(envelope.err_count, 0);
    assert!(delivery.is_none());
    assert_eq!(engine.take_create_request(), Some(s1));
    assert_eq!(engine.take_create_request(), Some(s2));
    assert_eq!(engine.take_create_request(), None);
}

#[test]
fn window_events_are_routed_only_to_registered_screens() {
    let mut engine = Engine::new();
    engine.start(config(800, 600, WindowStyle::Default)).unwrap();
    engine.take_create_request();
    engine.register_screen(NativeWindowId(11), ScreenId(1));

    let (target, calls) =
        engine.window_event(NativeWindowId(99), WindowEventData::RedrawRequested);
    assert!(target.is_none());
    assert!(calls.is_empty());

    let (target, calls) = engine.window_event(
        NativeWindowId(11),
        WindowEventData::Resized { width: 1024, height: 768 },
    );
    assert_eq!(target, Some(ScreenIdData(NativeWindowId(11), ScreenId(1))));
    assert_eq!(calls, vec![HostCall::Resized(ScreenId(1), 1024, 768)]);
}

#[test]
fn input_events_reach_the_matching_screen() {
    let mut engine = Engine::new();
    engine.start(config(800, 600, WindowStyle::Default)).unwrap();
    engine.take_create_request();
    engine.register_screen(NativeWindowId(5), ScreenId(50));

    let (_, calls) = engine.window_event(
        NativeWindowId(5),
        WindowEventData::KeyboardInput { key: KeyCode::Space, pressed: true },
    );
    assert_eq!(calls, vec![HostCall::Keyboard(ScreenId(50), KeyCode::Space, true)]);

    let (_, calls) = engine.window_event(
        NativeWindowId(5),
        WindowEventData::MouseInput { button: MouseButton::named(0), pressed: false },
    );
    assert_eq!(calls, vec![HostCall::MouseButtonInput(ScreenId(50), MouseButton::named(0), false)]);

    // A wheel movement outside the moved phase is dropped.
    let (_, calls) = engine.window_event(
        NativeWindowId(5),
        WindowEventData::MouseWheel {
            delta: WheelDelta::Line { x_delta_bits: 0, y_delta_bits: 0 },
            moved_phase: false,
        },
    );
    assert!(calls.is_empty());

    // A pixel delta (touchpad) is dropped even in the moved phase.
    let (_, calls) = engine.window_event(
        NativeWindowId(5),
        WindowEventData::MouseWheel { delta: WheelDelta::Pixel, moved_phase: true },
    );
    assert!(calls.is_empty());

    let (_, calls) = engine.window_event(
        NativeWindowId(5),
        WindowEventData::CursorMoved { x_bits: 17, y_bits: 23 },
    );
    assert_eq!(calls, vec![HostCall::CursorMoved(ScreenId(50), 17, 23)]);
}

#[test]
fn cancelled_close_keeps_screen_registered() {
    let mut engine = Engine::new();
    engine.start(config(800, 600, WindowStyle::Default)).unwrap();
    engine.take_create_request();
    let entry = ScreenIdData(NativeWindowId(7), ScreenId(70));
    engine.register_screen(NativeWindowId(7), ScreenId(70));

    let (_, calls) = engine.window_event(NativeWindowId(7), WindowEventData::CloseRequested);
    assert_eq!(calls, vec![HostCall::Closing(ScreenId(70))]);

    let (calls, exit) = engine.close_reply(entry, true);
    assert!(calls.is_empty());
    assert!(!exit);
    // The screen still receives events.
    let (target, _) = engine.window_event(NativeWindowId(7), WindowEventData::RedrawRequested);
    assert_eq!(target, Some(entry));
}

#[test]
fn refused_redraw_enters_close_negotiation() {
    let mut engine = Engine::new();
    engine.start(config(800, 600, WindowStyle::Default)).unwrap();
    engine.take_create_request();
    let entry = ScreenIdData(NativeWindowId(3), ScreenId(30));
    engine.register_screen(NativeWindowId(3), ScreenId(30));

    assert!(engine.redraw_reply(entry, true).is_empty());
    assert_eq!(engine.redraw_reply(entry, false), vec![HostCall::Closing(ScreenId(30))]);
}

#[test]
fn cleared_reaches_every_live_screen_once() {
    let mut engine = Engine::new();
    engine.start(config(800, 600, WindowStyle::Default)).unwrap();
    engine.take_create_request();
    engine.register_screen(NativeWindowId(1), ScreenId(10));
    engine.register_screen(NativeWindowId(2), ScreenId(20));
    let calls = engine.cleared_calls();
    assert_eq!(calls, vec![HostCall::Cleared(ScreenId(10)), HostCall::Cleared(ScreenId(20))]);
}

#[test]
fn two_screens_close_in_turn_until_the_loop_exits() {
    // The full lifecycle: start with S1; a second screen S2 is requested
    // through the proxy; both are initialised with distinct ids; S1 closes
    // uncancelled, then S2, which ends the run.
    let mut engine = Engine::new();
    let mut hub = ErrorHub::new();
    let mut counter = ThreadErrorCounter::new();
    let s1 = config(800, 600, WindowStyle::Default);
    let s2 = config(400, 300, WindowStyle::Default);

    engine.start(s1).unwrap();
    let (envelope, _) = create_screen(&mut engine, &mut hub, &mut counter, s2);
    assert_eq!(envelope.err_count, 0);

    // The loop processes the two requests in send order; each construction
    // ends in on_screen_init, which hands back a fresh screen id.
    let mut inits = 0;
    let mut next_native = 1u64;
    let mut next_screen = 10usize;
    let mut entries = Vec::new();
    while let Some(_cfg) = engine.take_create_request() {
        let entry = ScreenIdData(NativeWindowId(next_native), ScreenId(next_screen));
        engine.register_screen(NativeWindowId(next_native), ScreenId(next_screen));
        entries.push(entry);
        inits += 1;
        next_native += 1;
        next_screen += 10;
    }
    assert_eq!(inits, 2);
    assert_ne!(entries[0].1, entries[1].1);

    // Close S1, uncancelled: exactly one Closed call, entry removed, loop
    // stays because S2 is still live.
    let (_, calls) = engine.window_event(entries[0].0, WindowEventData::CloseRequested);
    assert_eq!(calls, vec![HostCall::Closing(entries[0].1)]);
    let (calls, exit) = engine.close_reply(entries[0], false);
    assert_eq!(calls, vec![HostCall::Closed(entries[0].1)]);
    assert!(!exit);
    let (target, _) = engine.window_event(entries[0].0, WindowEventData::RedrawRequested);
    assert!(target.is_none());
    let (target, _) = engine.window_event(entries[1].0, WindowEventData::RedrawRequested);
    assert_eq!(target, Some(entries[1]));

    // Close S2 the same way: the registry empties and the loop is told to
    // exit, which returns start() to its caller.
    let (calls, exit) = engine.close_reply(entries[1], false);
    assert_eq!(calls, vec![HostCall::Closed(entries[1].1)]);
    assert!(exit);
    engine.finish();
    assert!(!engine.is_running());
}

#[test]
fn poll_tuning_waits_first_then_polls() {
    let tuning = PollTuning { wait_event_count: 50 };
    assert_eq!(tuning.control_flow_update(0), Some(LoopControlFlow::Wait));
    assert_eq!(tuning.control_flow_update(1), None);
    assert_eq!(tuning.control_flow_update(49), None);
    assert_eq!(tuning.control_flow_update(50), Some(LoopControlFlow::Poll));
    assert_eq!(tuning.control_flow_update(51), None);

    // A zero-length waiting phase polls from the start.
    let immediate = PollTuning { wait_event_count: 0 };
    assert_eq!(immediate.control_flow_update(0), Some(LoopControlFlow::Poll));
}
