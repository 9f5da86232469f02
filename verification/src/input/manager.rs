//! Device arrival: new keyboards and pointers.
//!
//! A new keyboard is registered and bound to the seat; a new pointer is
//! not stored, it is only attached to the cursor so the cursor follows
//! its motion.

use vstd::prelude::*;

use crate::handle::{Broker, Handle};
use crate::state::CompositorState;

verus! {

/// Bind a keyboard's device to the seat.
#[derive(Clone, Copy, PartialEq, Eq, Structural, Debug)]
pub struct SetSeatKeyboard {
    pub seat: Handle,
    pub keyboard: Handle,
}

/// Attach a pointer's device to the cursor object.
#[derive(Clone, Copy, PartialEq, Eq, Structural, Debug)]
pub struct AttachToCursor {
    pub cursor: Handle,
    pub pointer: Handle,
}

/// The backend reported a keyboard: issue its handle, append it to the
/// keyboard registry, and — when the seat is present and alive — ask the
/// runtime to bind the device to the seat.
pub fn keyboard_added(state: &mut CompositorState) -> (r: (Handle, Option<SetSeatKeyboard>))
    ensures
        final(state).keyboards@ == old(state).keyboards@.push(r.0),
        final(state).broker.live(r.0),
        !old(state).broker.live(r.0),
        r.1 == (if old(state).seat_live() {
            Some(SetSeatKeyboard { seat: old(state).seat_handle->Some_0, keyboard: r.0 })
        } else {
            None::<SetSeatKeyboard>
        }),
        old(state).wf() ==> final(state).wf(),
        forall|h2: Handle| h2 != r.0 ==>
            final(state).broker.live(h2) == old(state).broker.live(h2),
        Broker::step_ok(old(state).broker, final(state).broker),
        final(state).shells@ == old(state).shells@,
        final(state).layout.entries@ == old(state).layout.entries@,
        final(state).seat_handle == old(state).seat_handle,
        final(state).seat == old(state).seat,
        final(state).cursor_handle == old(state).cursor_handle,
        final(state).layout_handle == old(state).layout_handle,
        final(state).terminate_requested == old(state).terminate_requested,
{
    let live_seat = match state.seat_handle {
        Some(seat) => {
            match state.broker.access(seat) {
                Ok(()) => Some(seat),
                Err(_) => None,
            }
        }
        None => None,
    };
    let h = state.broker.create();
    state.keyboards.push(h);
    let bind = match live_seat {
        Some(seat) => Some(SetSeatKeyboard { seat, keyboard: h }),
        None => None,
    };
    (h, bind)
}

/// The backend reported a pointer: issue its handle and — when the
/// cursor object is alive — ask the runtime to attach the device to the
/// cursor.  The pointer itself is not stored; the cursor speaks for it
/// from here on.
pub fn pointer_added(state: &mut CompositorState) -> (r: (Handle, Option<AttachToCursor>))
    ensures
        final(state).broker.live(r.0),
        !old(state).broker.live(r.0),
        r.1 == (if old(state).cursor_live() {
            Some(AttachToCursor { cursor: old(state).cursor_handle, pointer: r.0 })
        } else {
            None::<AttachToCursor>
        }),
        old(state).wf() ==> final(state).wf(),
        forall|h2: Handle| h2 != r.0 ==>
            final(state).broker.live(h2) == old(state).broker.live(h2),
        Broker::step_ok(old(state).broker, final(state).broker),
        *final(state) == (CompositorState { broker: final(state).broker, ..*old(state) }),
{
    let cursor_alive = state.broker.access(state.cursor_handle).is_ok();
    let h = state.broker.create();
    let attach = if cursor_alive {
        Some(AttachToCursor { cursor: state.cursor_handle, pointer: h })
    } else {
        None
    };
    (h, attach)
}

} // verus!
