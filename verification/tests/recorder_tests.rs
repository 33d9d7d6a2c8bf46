use click_macro::dispatch::{
    all_modifiers_held, dispatch, handle_key_down, handle_mouse_down, handle_mouse_move, is_held,
    DispatchOutcome, KeyOutcome,
};
use click_macro::echo::{LastEnigoEvent, DEBOUNCE_NANOS};
use click_macro::event::{
    button_from_id, copy_events, elapsed, DeviceEvent, Key, MouseButton, MouseClickEvent,
    ReplayEvent,
};
use click_macro::recorder::MouseRecorder;

const MS: u64 = 1_000_000;

fn hotkey_held() -> Vec<Key> {
    vec![Key::LControl, Key::LShift, Key::LAlt]
}

fn click(relative_time: u64, x: i32, y: i32, button: MouseButton) -> MouseClickEvent {
    MouseClickEvent { relative_time, position: (x, y), button }
}

#[test]
fn new_recorder_is_idle_and_empty() {
    let r = MouseRecorder::new(42);
    assert!(!r.is_recording());
    assert!(!r.should_interrupt_replay());
    assert_eq!(r.mouse_position(), (0, 0));
    assert_eq!(r.last_event_time(), 42);
    assert_eq!(r.get_mouse_click_events(), vec![]);
}

#[test]
fn first_click_has_no_delay() {
    let mut r = MouseRecorder::new(0);
    r.start_recording(5 * MS);
    r.record_mouse_click_event(MouseButton::Right, 900 * MS);
    let events = r.get_mouse_click_events();
    assert_eq!(events.len(), 1);
    assert_eq!(events[0].relative_time, 0);
    assert_eq!(r.last_event_time(), 900 * MS);
}

#[test]
fn later_clicks_store_time_since_previous_click() {
    let mut r = MouseRecorder::new(0);
    r.start_recording(0);
    r.set_mouse_position((1, 2));
    r.record_mouse_click_event(MouseButton::Left, 100 * MS);
    r.set_mouse_position((3, 4));
    r.record_mouse_click_event(MouseButton::Middle, 350 * MS);
    r.record_mouse_click_event(MouseButton::Right, 351 * MS);
    assert_eq!(
        r.get_mouse_click_events(),
        vec![
            click(0, 1, 2, MouseButton::Left),
            click(250 * MS, 3, 4, MouseButton::Middle),
            click(MS, 3, 4, MouseButton::Right),
        ]
    );
}

#[test]
fn clock_reading_in_the_past_gives_zero_delay() {
    let mut r = MouseRecorder::new(0);
    r.start_recording(500);
    r.record_mouse_click_event(MouseButton::Left, 500);
    r.record_mouse_click_event(MouseButton::Left, 400);
    assert_eq!(r.get_mouse_click_events()[1].relative_time, 0);
    assert_eq!(elapsed(500, 400), 0);
    assert_eq!(elapsed(400, 500), 100);
    assert_eq!(elapsed(7, 7), 0);
}

#[test]
fn starting_a_recording_clears_the_buffer() {
    let mut r = MouseRecorder::new(0);
    r.start_recording(0);
    r.record_mouse_click_event(MouseButton::Left, 10);
    r.record_mouse_click_event(MouseButton::Left, 20);
    r.stop_recording();
    assert_eq!(r.get_mouse_click_events().len(), 2);
    r.start_recording(30);
    assert!(r.is_recording());
    assert_eq!(r.get_mouse_click_events(), vec![]);
    r.record_mouse_click_event(MouseButton::Right, 1000);
    assert_eq!(r.get_mouse_click_events(), vec![click(0, 0, 0, MouseButton::Right)]);
    r.start_recording(2000);
    r.start_recording(3000);
    assert_eq!(r.get_mouse_click_events(), vec![]);
    assert_eq!(r.last_event_time(), 3000);
}

#[test]
fn stop_keeps_the_macro() {
    let mut r = MouseRecorder::new(0);
    r.start_recording(0);
    r.record_mouse_click_event(MouseButton::Left, 10);
    r.stop_recording();
    assert!(!r.is_recording());
    assert_eq!(r.get_mouse_click_events(), vec![click(0, 0, 0, MouseButton::Left)]);
}

#[test]
fn toggle_alternates() {
    let mut r = MouseRecorder::new(0);
    assert!(r.toggle_recording(1));
    assert!(r.is_recording());
    assert!(!r.toggle_recording(2));
    assert!(!r.is_recording());
    assert!(r.toggle_recording(3));
    assert_eq!(r.last_event_time(), 3);
}

#[test]
fn interrupt_flag_is_set_and_cleared() {
    let mut r = MouseRecorder::new(0);
    r.set_interrupt(true);
    assert!(r.should_interrupt_replay());
    r.set_interrupt(false);
    assert!(!r.should_interrupt_replay());
}

#[test]
fn button_identifiers() {
    assert_eq!(button_from_id(1), Some(MouseButton::Left));
    assert_eq!(button_from_id(2), Some(MouseButton::Right));
    assert_eq!(button_from_id(3), Some(MouseButton::Middle));
    assert_eq!(button_from_id(0), None);
    assert_eq!(button_from_id(4), None);
    assert_eq!(button_from_id(usize::MAX), None);
}

#[test]
fn copy_events_copies() {
    let events = vec![click(0, 1, 1, MouseButton::Left), click(5, 2, 2, MouseButton::Right)];
    assert_eq!(copy_events(&events), events);
    assert_eq!(copy_events(&vec![]), vec![]);
}

#[test]
fn held_keys() {
    let held = vec![Key::Other, Key::LShift, Key::LAlt];
    assert!(is_held(&held, Key::LShift));
    assert!(is_held(&held, Key::LAlt));
    assert!(!is_held(&held, Key::LControl));
    assert!(!is_held(&vec![], Key::C));
    assert!(!all_modifiers_held(&held));
    assert!(all_modifiers_held(&vec![Key::LAlt, Key::C, Key::LControl, Key::LShift]));
    assert!(!all_modifiers_held(&vec![Key::LControl, Key::LShift]));
    assert!(!all_modifiers_held(&vec![Key::LControl, Key::LAlt]));
    assert!(!all_modifiers_held(&vec![Key::LShift, Key::LAlt]));
}

#[test]
fn mouse_move_updates_position() {
    let mut r = MouseRecorder::new(0);
    handle_mouse_move(&mut r, (-7, 99));
    assert_eq!(r.mouse_position(), (-7, 99));
    assert!(!r.is_recording());
    assert_eq!(r.get_mouse_click_events(), vec![]);
}

#[test]
fn mouse_down_is_dropped_while_idle() {
    let mut r = MouseRecorder::new(0);
    assert!(!handle_mouse_down(&mut r, MouseButton::Left, 10));
    assert_eq!(r.get_mouse_click_events(), vec![]);
    assert_eq!(r.last_event_time(), 0);
    r.start_recording(20);
    assert!(handle_mouse_down(&mut r, MouseButton::Left, 30));
    assert_eq!(r.get_mouse_click_events(), vec![click(0, 0, 0, MouseButton::Left)]);
}

#[test]
fn key_without_all_modifiers_is_ignored() {
    let mut r = MouseRecorder::new(0);
    assert_eq!(handle_key_down(&vec![Key::LControl, Key::LShift], &mut r, Key::C, 1), KeyOutcome::Ignored);
    assert_eq!(handle_key_down(&vec![], &mut r, Key::X, 1), KeyOutcome::Ignored);
    assert!(!r.is_recording());
}

#[test]
fn other_key_with_modifiers_is_ignored() {
    let mut r = MouseRecorder::new(0);
    assert_eq!(handle_key_down(&hotkey_held(), &mut r, Key::Other, 1), KeyOutcome::Ignored);
    assert_eq!(handle_key_down(&hotkey_held(), &mut r, Key::LControl, 1), KeyOutcome::Ignored);
    assert!(!r.is_recording());
    assert_eq!(r.last_event_time(), 0);
}

#[test]
fn record_hotkey_toggles() {
    let mut r = MouseRecorder::new(0);
    assert_eq!(handle_key_down(&hotkey_held(), &mut r, Key::C, 5), KeyOutcome::RecordingStarted);
    assert!(r.is_recording());
    assert_eq!(r.last_event_time(), 5);
    assert_eq!(handle_key_down(&hotkey_held(), &mut r, Key::C, 9), KeyOutcome::RecordingStopped);
    assert!(!r.is_recording());
    assert_eq!(r.last_event_time(), 5);
}

#[test]
fn replay_while_recording_is_rejected() {
    let mut r = MouseRecorder::new(0);
    r.start_recording(0);
    r.record_mouse_click_event(MouseButton::Left, 10);
    let before = r.get_mouse_click_events();
    assert_eq!(handle_key_down(&hotkey_held(), &mut r, Key::X, 20), KeyOutcome::ReplayRejected);
    assert_eq!(r.get_mouse_click_events(), before);
    assert!(r.is_recording());
    assert_eq!(r.last_event_time(), 10);
}

#[test]
fn replay_hotkey_hands_out_a_snapshot() {
    let mut r = MouseRecorder::new(0);
    r.start_recording(0);
    r.record_mouse_click_event(MouseButton::Left, 10);
    r.stop_recording();
    let outcome = handle_key_down(&hotkey_held(), &mut r, Key::X, 20);
    assert_eq!(
        outcome,
        KeyOutcome::Replay(ReplayEvent { events: vec![click(0, 0, 0, MouseButton::Left)] })
    );
    r.start_recording(30);
    assert_eq!(r.get_mouse_click_events(), vec![]);
    assert_eq!(
        outcome,
        KeyOutcome::Replay(ReplayEvent { events: vec![click(0, 0, 0, MouseButton::Left)] })
    );
}

#[test]
fn replay_of_an_empty_recording_is_an_empty_request() {
    let mut r = MouseRecorder::new(0);
    assert_eq!(
        handle_key_down(&hotkey_held(), &mut r, Key::X, 20),
        KeyOutcome::Replay(ReplayEvent { events: vec![] })
    );
}

#[test]
fn last_injection_starts_off_screen() {
    let last = LastEnigoEvent::new(77);
    assert_eq!(last, LastEnigoEvent { position: (-1, -1), ts: 77 });
    let mut last = last;
    last.update((4, 5), 99);
    assert_eq!(last, LastEnigoEvent { position: (4, 5), ts: 99 });
}

#[test]
fn debounce_window_is_a_tenth_of_a_second() {
    assert_eq!(DEBOUNCE_NANOS, 100 * MS);
}

#[test]
fn move_echo_is_suppressed_within_window_only() {
    let last = LastEnigoEvent { position: (10, 10), ts: 1000 * MS };
    let echo = DeviceEvent::MouseMove((10, 10));
    assert!(last.suppresses(&echo, 1000 * MS));
    assert!(last.suppresses(&echo, 1099 * MS));
    assert!(last.suppresses(&echo, 1100 * MS - 1));
    assert!(!last.suppresses(&echo, 1100 * MS));
    assert!(!last.suppresses(&echo, 5000 * MS));
    assert!(!last.suppresses(&DeviceEvent::MouseMove((10, 11)), 1001 * MS));
    assert!(!last.suppresses(&DeviceEvent::MouseMove((11, 10)), 1001 * MS));
}

#[test]
fn press_echo_ignores_position() {
    let last = LastEnigoEvent { position: (10, 10), ts: 1000 * MS };
    assert!(last.suppresses(&DeviceEvent::MouseDown(1), 1050 * MS));
    assert!(last.suppresses(&DeviceEvent::MouseDown(9), 1050 * MS));
    assert!(last.suppresses(&DeviceEvent::KeyDown(Key::C), 1050 * MS));
    assert!(!last.suppresses(&DeviceEvent::MouseDown(1), 1100 * MS));
    assert!(!last.suppresses(&DeviceEvent::KeyDown(Key::Other), 1100 * MS));
}

#[test]
fn suppressed_move_changes_nothing() {
    let mut r = MouseRecorder::new(0);
    let last = LastEnigoEvent { position: (10, 10), ts: 1000 * MS };
    let out = dispatch(&mut r, &last, DeviceEvent::MouseMove((10, 10)), &vec![], 1050 * MS);
    assert_eq!(out, DispatchOutcome::Suppressed);
    assert!(!r.should_interrupt_replay());
    assert_eq!(r.mouse_position(), (0, 0));
    let out = dispatch(&mut r, &last, DeviceEvent::MouseMove((10, 10)), &vec![], 1100 * MS);
    assert_eq!(out, DispatchOutcome::CursorMoved);
    assert!(r.should_interrupt_replay());
    assert_eq!(r.mouse_position(), (10, 10));
}

#[test]
fn suppressed_click_is_not_recorded() {
    let mut r = MouseRecorder::new(0);
    r.start_recording(0);
    let last = LastEnigoEvent { position: (10, 10), ts: 1000 * MS };
    let out = dispatch(&mut r, &last, DeviceEvent::MouseDown(1), &vec![], 1001 * MS);
    assert_eq!(out, DispatchOutcome::Suppressed);
    assert_eq!(r.get_mouse_click_events(), vec![]);
    assert!(!r.should_interrupt_replay());
    let out = dispatch(&mut r, &last, DeviceEvent::KeyDown(Key::C), &hotkey_held(), 1001 * MS);
    assert_eq!(out, DispatchOutcome::Suppressed);
    assert!(r.is_recording());
}

#[test]
fn unknown_button_is_dropped() {
    let mut r = MouseRecorder::new(0);
    r.start_recording(0);
    let last = LastEnigoEvent::new(0);
    let out = dispatch(&mut r, &last, DeviceEvent::MouseDown(4), &vec![], 1000 * MS);
    assert_eq!(out, DispatchOutcome::UnknownButton);
    assert_eq!(r.get_mouse_click_events(), vec![]);
    assert!(r.should_interrupt_replay());
    assert!(r.is_recording());
}

#[test]
fn click_while_idle_only_interrupts() {
    let mut r = MouseRecorder::new(0);
    let last = LastEnigoEvent::new(0);
    let out = dispatch(&mut r, &last, DeviceEvent::MouseDown(2), &vec![], 1000 * MS);
    assert_eq!(out, DispatchOutcome::ClickIgnored);
    assert_eq!(r.get_mouse_click_events(), vec![]);
    assert!(r.should_interrupt_replay());
}

#[test]
fn dispatched_key_reports_key_outcome() {
    let mut r = MouseRecorder::new(0);
    let last = LastEnigoEvent::new(0);
    let out = dispatch(&mut r, &last, DeviceEvent::KeyDown(Key::Other), &hotkey_held(), 1000 * MS);
    assert_eq!(out, DispatchOutcome::Key(KeyOutcome::Ignored));
    assert!(r.should_interrupt_replay());
    let out = dispatch(&mut r, &last, DeviceEvent::KeyDown(Key::X), &hotkey_held(), 1001 * MS);
    assert_eq!(out, DispatchOutcome::Key(KeyOutcome::Replay(ReplayEvent { events: vec![] })));
}

#[test]
fn scenario_record_two_clicks() {
    let mut r = MouseRecorder::new(0);
    let last = LastEnigoEvent::new(0);
    let held = hotkey_held();
    let none: Vec<Key> = vec![];
    let t0 = 1000 * MS;
    assert_eq!(
        dispatch(&mut r, &last, DeviceEvent::KeyDown(Key::C), &held, t0),
        DispatchOutcome::Key(KeyOutcome::RecordingStarted)
    );
    assert_eq!(
        dispatch(&mut r, &last, DeviceEvent::MouseMove((10, 10)), &none, t0 + 50 * MS),
        DispatchOutcome::CursorMoved
    );
    assert_eq!(
        dispatch(&mut r, &last, DeviceEvent::MouseDown(1), &none, t0 + 100 * MS),
        DispatchOutcome::ClickRecorded
    );
    assert_eq!(
        dispatch(&mut r, &last, DeviceEvent::MouseMove((50, 50)), &none, t0 + 200 * MS),
        DispatchOutcome::CursorMoved
    );
    assert_eq!(
        dispatch(&mut r, &last, DeviceEvent::MouseDown(1), &none, t0 + 400 * MS),
        DispatchOutcome::ClickRecorded
    );
    assert_eq!(
        dispatch(&mut r, &last, DeviceEvent::KeyDown(Key::C), &held, t0 + 500 * MS),
        DispatchOutcome::Key(KeyOutcome::RecordingStopped)
    );
    assert!(!r.is_recording());
    assert_eq!(
        r.get_mouse_click_events(),
        vec![click(0, 10, 10, MouseButton::Left), click(300 * MS, 50, 50, MouseButton::Left)]
    );
}
