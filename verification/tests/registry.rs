use compositor_core::input::pointer::Pointer;
use compositor_core::input::keyboard::ModifierMasks;
use compositor_core::input::manager::keyboard_added;
use compositor_core::shells::xdg_v6::{destroyed, surface_added};
use compositor_core::state::CompositorState;

fn masks() -> ModifierMasks {
    ModifierMasks { depressed: 0, latched: 0, locked: 0, group: 0 }
}

#[test]
fn registry_length_tracks_creations_minus_destructions() {
    let mut state = CompositorState::new();
    assert_eq!(state.shells.len(), 0);
    let (a, _) = surface_added(&mut state);
    let (b, _) = surface_added(&mut state);
    let (c, _) = surface_added(&mut state);
    assert_eq!(state.shells.len(), 3);
    destroyed(&mut state, b);
    assert_eq!(state.shells.len(), 2);
    destroyed(&mut state, a);
    destroyed(&mut state, c);
    assert_eq!(state.shells.len(), 0);
    // A destruction with nothing left to remove takes nothing away.
    destroyed(&mut state, a);
    assert_eq!(state.shells.len(), 0);
}

#[test]
fn registry_keeps_insertion_order() {
    let mut state = CompositorState::new();
    let (a, _) = surface_added(&mut state);
    let (b, _) = surface_added(&mut state);
    let (c, _) = surface_added(&mut state);
    destroyed(&mut state, b);
    assert_eq!(state.shells, vec![a, c]);
}

#[test]
fn destroyed_surface_resolves_to_destroyed_on_next_access() {
    let mut state = CompositorState::new();
    let (a, _) = surface_added(&mut state);
    assert!(state.broker.access(a).is_ok());
    destroyed(&mut state, a);
    assert!(state.broker.access(a).is_err());
    // Later registry activity does not bring it back.
    let (_b, _) = surface_added(&mut state);
    assert!(state.broker.access(a).is_err());
}

#[test]
fn surface_added_schedules_a_frame_on_every_output() {
    let mut state = CompositorState::new();
    let out1 = state.broker.create();
    let out2 = state.broker.create();
    assert!(state.layout.add_auto(out1, 800, 600));
    assert!(state.layout.add_auto(out2, 1024, 768));
    let (h, actions) = surface_added(&mut state);
    assert_eq!(actions.ping, h);
    assert_eq!(actions.schedule_frames, vec![out1, out2]);
}

#[test]
fn destroying_the_focused_surface_clears_focus() {
    let mut state = CompositorState::new();
    state.install_seat();
    let (_kb, _) = keyboard_added(&mut state);
    let (a, _) = surface_added(&mut state);
    let (b, _) = surface_added(&mut state);
    let pointer = Pointer;
    let dispatch = pointer.on_button(&mut state, vec![], masks());
    // The topmost surface (the one rendered last) takes the focus.
    let d = dispatch.expect("all handles are alive");
    assert_eq!(d.surface, b);
    assert_eq!(state.seat.focus, Some(b));
    destroyed(&mut state, b);
    assert_eq!(state.seat.focus, None);
    // Destroying an unfocused surface leaves focus alone.
    let dispatch = pointer.on_button(&mut state, vec![], masks());
    assert_eq!(dispatch.expect("surface a is alive").surface, a);
    let (c, _) = surface_added(&mut state);
    destroyed(&mut state, c);
    assert_eq!(state.seat.focus, Some(a));
}
