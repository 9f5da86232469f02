//! Pointer-event dispatch: cursor motion and button presses.
//!
//! Motion events are forwarded to the cursor object: absolute motion
//! warps it to a device-space coordinate, relative motion accumulates a
//! delta.  A button press activates the topmost surface, makes it the
//! keyboard focus, and owes the newly focused surface a keyboard-enter
//! notification carrying the pressed keys and modifier state.

use vstd::prelude::*;

use crate::handle::Handle;
use crate::input::keyboard::ModifierMasks;
use crate::state::CompositorState;

verus! {

/// What a motion event asks the cursor to do.  Coordinates and deltas
/// are in the backend's fixed-point device units; the runtime converts
/// at the boundary.
#[derive(Clone, Copy, PartialEq, Eq, Structural, Debug)]
pub enum CursorRequest {
    /// Warp the cursor to an absolute device-space position.
    WarpAbsolute { x: i64, y: i64 },
    /// Move the cursor by a relative delta.
    Move { dx: i64, dy: i64 },
}

/// What a button press asks the runtime to do: activate the surface,
/// bind the keyboard to the seat, and send the keyboard-enter
/// notification to the surface with this key and modifier state.
pub struct ButtonDispatch {
    /// The surface that was activated and focused: the topmost one.
    pub surface: Handle,
    /// The keyboard whose state enters the surface.
    pub keyboard: Handle,
    /// Keycodes currently pressed on that keyboard.
    pub keycodes: Vec<u32>,
    /// Its live modifier state.
    pub modifiers: ModifierMasks,
}

/// The handler attached to every pointer the backend reports.
pub struct Pointer;

impl Pointer {
    /// Absolute motion: warp the cursor to the event's position, or skip
    /// the event when the cursor object is gone.
    pub fn on_motion_absolute(
        &self,
        state: &CompositorState,
        x: i64,
        y: i64,
    ) -> (r: Option<CursorRequest>)
        ensures
            r == (if state.cursor_live() {
                Some(CursorRequest::WarpAbsolute { x, y })
            } else {
                None::<CursorRequest>
            }),
    {
        match state.broker.access(state.cursor_handle) {
            Ok(()) => Some(CursorRequest::WarpAbsolute { x, y }),
            Err(_) => None,
        }
    }

    /// Relative motion: move the cursor by the event's delta, or skip
    /// the event when the cursor object is gone.
    pub fn on_motion(
        &self,
        state: &CompositorState,
        dx: i64,
        dy: i64,
    ) -> (r: Option<CursorRequest>)
        ensures
            r == (if state.cursor_live() {
                Some(CursorRequest::Move { dx, dy })
            } else {
                None::<CursorRequest>
            }),
    {
        match state.broker.access(state.cursor_handle) {
            Ok(()) => Some(CursorRequest::Move { dx, dy }),
            Err(_) => None,
        }
    }

    /// A button press: activate the topmost surface — the one rendered
    /// last — set it as the keyboard focus, and owe it a keyboard-enter
    /// notification with the given pressed keys and live modifier state
    /// of the first attached keyboard.
    ///
    /// The surface, the keyboard and the seat are acquired atomically:
    /// if any of them is missing or destroyed, nothing happens — the
    /// focus does not change and no notification is owed.
    pub fn on_button(
        &self,
        state: &mut CompositorState,
        keycodes: Vec<u32>,
        live_modifiers: ModifierMasks,
    ) -> (r: Option<ButtonDispatch>)
        ensures
            r is Some <==> (old(state).shells@.len() > 0
                && old(state).broker.live(old(state).shells@.last())
                && old(state).keyboards@.len() > 0
                && old(state).broker.live(old(state).keyboards@[0])
                && old(state).seat_live()),
            r matches Some(d) ==> {
                &&& d.surface == old(state).shells@.last()
                &&& d.keyboard == old(state).keyboards@[0]
                &&& d.keycodes@ == keycodes@
                &&& d.modifiers == live_modifiers
                &&& final(state).seat.focus == Some(d.surface)
                &&& *final(state) == (CompositorState {
                    seat: final(state).seat,
                    ..*old(state)
                })
                &&& final(state).seat == (crate::state::SeatState {
                    focus: final(state).seat.focus,
                    ..old(state).seat
                })
            },
            r is None ==> *final(state) == *old(state),
            old(state).wf() ==> final(state).wf(),
    {
        if state.shells.len() == 0 || state.keyboards.len() == 0 {
            return None;
        }
        let surface = state.shells[state.shells.len() - 1];
        let keyboard = state.keyboards[0];
        let seat = match state.seat_handle {
            Some(s) => s,
            None => {
                return None;
            }
        };
        if state.broker.access(surface).is_err()
            || state.broker.access(keyboard).is_err()
            || state.broker.access(seat).is_err()
        {
            return None;
        }
        state.seat.focus = Some(surface);
        proof {
            assert(state.shells@.last() == state.shells@[state.shells@.len() - 1]);
            assert(state.shells@.contains(surface));
        }
        Some(ButtonDispatch { surface, keyboard, keycodes, modifiers: live_modifiers })
    }
}

} // verus!
