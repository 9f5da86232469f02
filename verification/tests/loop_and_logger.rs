use compositor_core::input::keyboard::{KeyEvent, ModifierMasks, KEY_ESCAPE};
use compositor_core::input::manager::{keyboard_added, pointer_added};
use compositor_core::input::pointer::{CursorRequest, Pointer};
use compositor_core::logger::{init_verbosity, LogFilter, LogLevel, Logger, Verbosity};
use compositor_core::run::{run_events, Event, EventOutcome};
use compositor_core::state::CompositorState;

fn masks() -> ModifierMasks {
    ModifierMasks { depressed: 0, latched: 0, locked: 0, group: 0 }
}

fn key_event(keysyms: Vec<u32>) -> Event {
    Event::Key {
        event: KeyEvent { time_msec: 0, keycode: 0, pressed: true, keysyms },
        live_modifiers: masks(),
    }
}

#[test]
fn terminate_key_stops_the_loop_at_the_next_boundary() {
    let mut state = CompositorState::new();
    state.install_seat();
    let events = vec![
        key_event(vec![0x61]),
        key_event(vec![KEY_ESCAPE]),
        key_event(vec![0x62]),
        Event::SurfaceAdded,
    ];
    let (outcomes, _) = run_events(&mut state, events);
    // The terminate event itself is dispatched; nothing after it is.
    assert_eq!(outcomes.len(), 2);
    assert!(state.terminate_requested);
    assert_eq!(state.shells.len(), 0);
}

#[test]
fn loop_with_termination_already_requested_dispatches_nothing() {
    let mut state = CompositorState::new();
    state.install_seat();
    run_events(&mut state, vec![key_event(vec![KEY_ESCAPE])]);
    let (outcomes, _) = run_events(&mut state, vec![Event::SurfaceAdded]);
    assert_eq!(outcomes.len(), 0);
    assert_eq!(state.shells.len(), 0);
}

#[test]
fn loop_without_terminate_dispatches_everything() {
    let mut state = CompositorState::new();
    state.install_seat();
    let events = vec![
        Event::KeyboardAdded,
        Event::PointerAdded,
        Event::OutputAdded { width: 800, height: 600, scale: 1 },
        Event::SurfaceAdded,
        Event::PointerMotion { dx: 3, dy: -4 },
    ];
    let (outcomes, _) = run_events(&mut state, events);
    assert_eq!(outcomes.len(), 5);
    assert!(!state.terminate_requested);
    assert_eq!(state.shells.len(), 1);
    assert_eq!(state.keyboards.len(), 1);
    match &outcomes[4] {
        EventOutcome::Cursor(Some(CursorRequest::Move { dx, dy })) => {
            assert_eq!((*dx, *dy), (3, -4));
        }
        _ => panic!("relative motion should move the cursor"),
    }
}

#[test]
fn mismatched_frame_snapshots_are_skipped() {
    let mut state = CompositorState::new();
    state.install_seat();
    let output = state.broker.create();
    let events = vec![
        Event::SurfaceAdded,
        Event::OutputFrame { output, scale: 1, snapshots: vec![] },
    ];
    let (outcomes, _) = run_events(&mut state, events);
    assert_eq!(outcomes.len(), 2);
    assert!(matches!(outcomes[1], EventOutcome::Skipped));
}

#[test]
fn motion_warps_and_moves_the_cursor() {
    let mut state = CompositorState::new();
    let pointer = Pointer;
    assert_eq!(
        pointer.on_motion_absolute(&state, 10, 20),
        Some(CursorRequest::WarpAbsolute { x: 10, y: 20 })
    );
    assert_eq!(
        pointer.on_motion(&state, -5, 9),
        Some(CursorRequest::Move { dx: -5, dy: 9 })
    );
    let cursor = state.cursor_handle;
    state.broker.destroy(cursor);
    assert_eq!(pointer.on_motion_absolute(&state, 1, 2), None);
    assert_eq!(pointer.on_motion(&state, 1, 2), None);
}

#[test]
fn button_press_without_surfaces_does_nothing() {
    let mut state = CompositorState::new();
    state.install_seat();
    keyboard_added(&mut state);
    let pointer = Pointer;
    assert!(pointer.on_button(&mut state, vec![], masks()).is_none());
    assert_eq!(state.seat.focus, None);
}

#[test]
fn button_press_carries_keys_and_modifiers_to_the_surface() {
    let mut state = CompositorState::new();
    state.install_seat();
    let (kb, _) = keyboard_added(&mut state);
    let (outcomes, _) = run_events(&mut state, vec![Event::SurfaceAdded]);
    assert_eq!(outcomes.len(), 1);
    let pointer = Pointer;
    let live = ModifierMasks { depressed: 8, latched: 0, locked: 2, group: 0 };
    let d = pointer.on_button(&mut state, vec![30, 31], live).expect("all alive");
    assert_eq!(d.keyboard, kb);
    assert_eq!(d.keycodes, vec![30, 31]);
    assert_eq!(d.modifiers, live);
    assert_eq!(state.seat.focus, Some(d.surface));
}

#[test]
fn the_seat_is_created_with_every_capability() {
    let mut state = CompositorState::new();
    assert!(state.seat_handle.is_none());
    let seat = state.install_seat();
    assert_eq!(state.seat_handle, Some(seat));
    assert!(state.broker.access(seat).is_ok());
    assert!(state.seat.keyboard);
    assert!(state.seat.pointer);
    assert!(state.seat.touch);
    assert_eq!(state.seat.focus, None);
}

#[test]
fn device_arrival_binds_seat_and_cursor() {
    let mut state = CompositorState::new();
    let seat = state.install_seat();
    let (kb, bind) = keyboard_added(&mut state);
    let bind = bind.expect("seat is alive");
    assert_eq!(bind.seat, seat);
    assert_eq!(bind.keyboard, kb);
    assert_eq!(state.keyboards, vec![kb]);
    let (ptr, attach) = pointer_added(&mut state);
    let attach = attach.expect("cursor is alive");
    assert_eq!(attach.cursor, state.cursor_handle);
    assert_eq!(attach.pointer, ptr);
}

#[test]
fn keyboard_arrival_without_a_seat_registers_but_binds_nothing() {
    let mut state = CompositorState::new();
    let (kb, bind) = keyboard_added(&mut state);
    assert!(bind.is_none());
    assert_eq!(state.keyboards, vec![kb]);
}

#[test]
fn startup_verbosity_follows_the_filter_table() {
    assert_eq!(init_verbosity(LogFilter::Off), Verbosity::Silent);
    assert_eq!(init_verbosity(LogFilter::Error), Verbosity::Error);
    assert_eq!(init_verbosity(LogFilter::Warn), Verbosity::Error);
    assert_eq!(init_verbosity(LogFilter::Info), Verbosity::Info);
    assert_eq!(init_verbosity(LogFilter::Debug), Verbosity::Verbose);
    assert_eq!(init_verbosity(LogFilter::Trace), Verbosity::Verbose);
}

#[test]
fn records_are_filtered_by_severity() {
    let logger = Logger;
    assert!(logger.enabled(LogLevel::Error, LogFilter::Warn));
    assert!(logger.enabled(LogLevel::Warn, LogFilter::Warn));
    assert!(!logger.enabled(LogLevel::Info, LogFilter::Warn));
    assert!(!logger.enabled(LogLevel::Error, LogFilter::Off));
    assert!(logger.enabled(LogLevel::Trace, LogFilter::Trace));
    let msg = b"dropped".to_vec();
    assert!(logger.log(LogLevel::Debug, LogFilter::Info, None, None, &msg).is_none());
}

#[test]
fn records_format_with_their_source_location() {
    let logger = Logger;
    let file = b"main.rs".to_vec();
    let msg = b"hello".to_vec();
    let (verbosity, text) = logger
        .log(LogLevel::Info, LogFilter::Debug, Some(&file), Some(407), &msg)
        .expect("info passes a debug filter");
    assert_eq!(verbosity, Verbosity::Info);
    assert_eq!(text, b"[main.rs:407] hello".to_vec());

    // A location is a file and a line; a record missing either carries
    // the bare message.
    let (verbosity, text) = logger
        .log(LogLevel::Warn, LogFilter::Warn, Some(&file), None, &msg)
        .expect("warn passes a warn filter");
    assert_eq!(verbosity, Verbosity::Error);
    assert_eq!(text, b"hello".to_vec());

    let (verbosity, text) = logger
        .log(LogLevel::Trace, LogFilter::Trace, None, Some(9), &msg)
        .expect("trace passes a trace filter");
    assert_eq!(verbosity, Verbosity::Verbose);
    assert_eq!(text, b"hello".to_vec());
}

#[test]
fn line_zero_formats_as_a_single_digit() {
    let logger = Logger;
    let file = b"f".to_vec();
    let msg = b"m".to_vec();
    let (_, text) = logger
        .log(LogLevel::Error, LogFilter::Error, Some(&file), Some(0), &msg)
        .expect("error always passes an error filter");
    assert_eq!(text, b"[f:0] m".to_vec());
}
