use compositor_core::input::keyboard::{
    HotkeyAction, KeyEvent, Keyboard, ModifierMasks, KEY_ESCAPE, KEY_F1, KEY_SWITCH_VT_1,
};
use compositor_core::state::CompositorState;

fn masks(depressed: u32) -> ModifierMasks {
    ModifierMasks { depressed, latched: 0, locked: 0, group: 1 }
}

fn press(keysyms: Vec<u32>) -> KeyEvent {
    KeyEvent { time_msec: 1000, keycode: 30, pressed: true, keysyms }
}

#[test]
fn terminate_key_requests_shutdown() {
    let mut state = CompositorState::new();
    state.install_seat();
    let keyboard = Keyboard;
    assert!(!state.terminate_requested);
    let d = keyboard.on_key(&mut state, &press(vec![KEY_ESCAPE]), masks(0));
    assert!(state.terminate_requested);
    assert_eq!(d.actions, vec![HotkeyAction::Terminate]);
}

#[test]
fn vt_switch_key_requests_offset_plus_one() {
    let mut state = CompositorState::new();
    state.install_seat();
    let keyboard = Keyboard;
    // Base key maps to terminal 1, base + 2 to terminal 3.
    let d = keyboard.on_key(&mut state, &press(vec![KEY_SWITCH_VT_1 + 2]), masks(0));
    assert_eq!(d.actions, vec![HotkeyAction::SwitchVt(3)]);
    let d = keyboard.on_key(&mut state, &press(vec![KEY_SWITCH_VT_1]), masks(0));
    assert_eq!(d.actions, vec![HotkeyAction::SwitchVt(1)]);
    assert!(!state.terminate_requested);
}

#[test]
fn helper_terminal_key_spawns() {
    let mut state = CompositorState::new();
    state.install_seat();
    let keyboard = Keyboard;
    let d = keyboard.on_key(&mut state, &press(vec![KEY_F1]), masks(0));
    assert_eq!(d.actions, vec![HotkeyAction::SpawnTerminal]);
}

#[test]
fn ordinary_keys_trigger_no_hotkey() {
    let mut state = CompositorState::new();
    state.install_seat();
    let keyboard = Keyboard;
    let d = keyboard.on_key(&mut state, &press(vec![0x61, 0x62]), masks(0));
    assert_eq!(d.actions, vec![]);
    assert!(!state.terminate_requested);
}

#[test]
fn key_release_reaches_no_hotkey_but_is_forwarded() {
    let mut state = CompositorState::new();
    state.install_seat();
    let keyboard = Keyboard;
    let event = KeyEvent { time_msec: 7, keycode: 1, pressed: false, keysyms: vec![KEY_ESCAPE] };
    let d = keyboard.on_key(&mut state, &event, masks(0));
    assert_eq!(d.actions, vec![]);
    assert!(!state.terminate_requested);
    let notify = d.seat_notify.expect("seat is alive");
    assert!(!notify.pressed);
    assert_eq!(notify.keycode, 1);
    assert_eq!(notify.time_msec, 7);
}

#[test]
fn forwarded_modifiers_match_the_live_mask() {
    let mut state = CompositorState::new();
    state.install_seat();
    let keyboard = Keyboard;
    let live = masks(0x11);
    let d = keyboard.on_key(&mut state, &press(vec![0x61]), live);
    let notify = d.seat_notify.expect("seat is alive");
    assert_eq!(notify.modifiers, live);
    // A later event with a different live mask forwards the new mask,
    // not a stale one.
    let live2 = masks(0x4);
    let d2 = keyboard.on_key(&mut state, &press(vec![0x61]), live2);
    assert_eq!(d2.seat_notify.expect("seat is alive").modifiers, live2);
}

#[test]
fn no_seat_skips_forwarding() {
    let mut state = CompositorState::new();
    let keyboard = Keyboard;
    let d = keyboard.on_key(&mut state, &press(vec![0x61]), masks(0));
    assert!(d.seat_notify.is_none());
}

#[test]
fn several_pressed_keys_dispatch_in_order() {
    let mut state = CompositorState::new();
    state.install_seat();
    let keyboard = Keyboard;
    let d = keyboard.on_key(
        &mut state,
        &press(vec![KEY_F1, 0x61, KEY_SWITCH_VT_1 + 1]),
        masks(0),
    );
    assert_eq!(
        d.actions,
        vec![HotkeyAction::SpawnTerminal, HotkeyAction::SwitchVt(2)]
    );
}
