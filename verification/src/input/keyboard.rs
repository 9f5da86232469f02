//! Key-event dispatch: global hotkeys, then forwarding to the seat.
//!
//! On a key press every pressed keysym is run through the hotkey table:
//! the terminate key asks the run loop to stop, one key spawns a helper
//! terminal, and the virtual-terminal range asks the session layer to
//! switch consoles.  Key releases reach no hotkey.  Afterwards — press
//! or release — the event is forwarded to the seat: the keyboard's live
//! modifier state first, then the raw key notification verbatim, so the
//! seat's protocol layer can inform the focused client.

use vstd::prelude::*;

use crate::state::CompositorState;

verus! {

/// Keysym of the terminate hotkey (the escape key).
pub const KEY_ESCAPE: u32 = 0xff1b;

/// Keysym of the helper-terminal hotkey (the first function key).
pub const KEY_F1: u32 = 0xffbe;

/// First keysym of the virtual-terminal switch range; it requests
/// terminal index 1.
pub const KEY_SWITCH_VT_1: u32 = 0x1008FE01;

/// Last keysym of the virtual-terminal switch range; it requests
/// terminal index 12.
pub const KEY_SWITCH_VT_12: u32 = 0x1008FE0C;

/// The modifier state of a keyboard device, as its protocol reports it.
#[derive(Clone, Copy, PartialEq, Eq, Structural, Debug)]
pub struct ModifierMasks {
    pub depressed: u32,
    pub latched: u32,
    pub locked: u32,
    pub group: u32,
}

/// One raw key event from a keyboard device.
pub struct KeyEvent {
    /// Timestamp of the event in milliseconds.
    pub time_msec: u32,
    /// The raw keycode, relayed verbatim to the seat.
    pub keycode: u32,
    /// True for a press, false for a release.
    pub pressed: bool,
    /// The keysyms the event reports as pressed.
    pub keysyms: Vec<u32>,
}

/// A global hotkey the dispatcher intercepted.
#[derive(Clone, Copy, PartialEq, Eq, Structural, Debug)]
pub enum HotkeyAction {
    /// Stop the run loop at its next iteration boundary.
    Terminate,
    /// Launch the helper terminal, fire-and-forget.
    SpawnTerminal,
    /// Ask the session layer for the given virtual terminal; a missing
    /// session layer makes this a silent no-op, never an error.
    SwitchVt(u32),
}

/// The forwarding owed to the seat for one key event: the keyboard's
/// live modifier state, then the raw notification.
#[derive(Clone, Copy, PartialEq, Eq, Structural, Debug)]
pub struct SeatKeyNotify {
    pub modifiers: ModifierMasks,
    pub time_msec: u32,
    pub keycode: u32,
    pub pressed: bool,
}

/// Everything one key event asks the runtime to do.
pub struct KeyDispatch {
    /// Intercepted hotkeys, in keysym order.
    pub actions: Vec<HotkeyAction>,
    /// Forwarding to the seat; absent only when the seat is gone, a
    /// recoverable condition that skips forwarding for this event.
    pub seat_notify: Option<SeatKeyNotify>,
}

/// The hotkey a pressed keysym triggers, if any.  A key in the
/// virtual-terminal range at offset `d` from the range's base requests
/// terminal index `d + 1`.
pub open spec fn hotkey_for(key: u32) -> Option<HotkeyAction> {
    if key == KEY_ESCAPE {
        Some(HotkeyAction::Terminate)
    } else if key == KEY_F1 {
        Some(HotkeyAction::SpawnTerminal)
    } else if KEY_SWITCH_VT_1 <= key <= KEY_SWITCH_VT_12 {
        Some(HotkeyAction::SwitchVt((key - KEY_SWITCH_VT_1 + 1) as u32))
    } else {
        None
    }
}

/// The hotkeys a press with these keysyms triggers, in order.
pub open spec fn hotkeys_of(keys: Seq<u32>) -> Seq<HotkeyAction>
    decreases keys.len(),
{
    if keys.len() == 0 {
        Seq::empty()
    } else {
        hotkeys_of(keys.drop_last()) + (match hotkey_for(keys.last()) {
            Some(a) => seq![a],
            None => Seq::empty(),
        })
    }
}

/// The handler attached to every keyboard the backend reports.
pub struct Keyboard;

impl Keyboard {
    /// Dispatch one key event.
    ///
    /// A press runs every reported keysym through the hotkey table and
    /// records a terminate request when the terminate key is among them;
    /// a release triggers nothing.  In both cases the event is forwarded
    /// to the seat — modifier state exactly as the device reports it at
    /// this moment, and the raw notification verbatim — unless the seat
    /// is absent or destroyed, which skips forwarding for this event
    /// only.
    pub fn on_key(
        &self,
        state: &mut CompositorState,
        event: &KeyEvent,
        live_modifiers: ModifierMasks,
    ) -> (d: KeyDispatch)
        ensures
            event.pressed ==> d.actions@ == hotkeys_of(event.keysyms@),
            !event.pressed ==> d.actions@ == Seq::<HotkeyAction>::empty(),
            final(state).terminate_requested == (old(state).terminate_requested
                || (event.pressed && event.keysyms@.contains(KEY_ESCAPE))),
            d.seat_notify == (if old(state).seat_live() {
                Some(SeatKeyNotify {
                    modifiers: live_modifiers,
                    time_msec: event.time_msec,
                    keycode: event.keycode,
                    pressed: event.pressed,
                })
            } else {
                None::<SeatKeyNotify>
            }),
            *final(state) == (CompositorState {
                terminate_requested: final(state).terminate_requested,
                ..*old(state)
            }),
    {
        let mut actions: Vec<HotkeyAction> = Vec::new();
        if event.pressed {
            let mut i: usize = 0;
            while i < event.keysyms.len()
                invariant
                    i <= event.keysyms@.len(),
                    actions@ == hotkeys_of(event.keysyms@.subrange(0, i as int)),
                    state.terminate_requested == (old(state).terminate_requested
                        || event.keysyms@.subrange(0, i as int).contains(KEY_ESCAPE)),
                    *state == (CompositorState {
                        terminate_requested: state.terminate_requested,
                        ..*old(state)
                    }),
                decreases event.keysyms@.len() - i,
            {
                let key = event.keysyms[i];
                if key == KEY_ESCAPE {
                    actions.push(HotkeyAction::Terminate);
                    state.terminate_requested = true;
                } else if key == KEY_F1 {
                    actions.push(HotkeyAction::SpawnTerminal);
                } else if KEY_SWITCH_VT_1 <= key && key <= KEY_SWITCH_VT_12 {
                    actions.push(HotkeyAction::SwitchVt(key - KEY_SWITCH_VT_1 + 1));
                }
                proof {
                    assert(event.keysyms@.subrange(0, i + 1).drop_last()
                        =~= event.keysyms@.subrange(0, i as int));
                    assert(event.keysyms@.subrange(0, i + 1).last() == key);
                    if event.keysyms@.subrange(0, i as int).contains(KEY_ESCAPE) {
                        let j = choose|j: int| 0 <= j < i
                            && event.keysyms@.subrange(0, i as int)[j] == KEY_ESCAPE;
                        assert(event.keysyms@.subrange(0, i + 1)[j] == KEY_ESCAPE);
                    }
                    if key == KEY_ESCAPE {
                        assert(event.keysyms@.subrange(0, i + 1)[i as int] == KEY_ESCAPE);
                    }
                    assert(actions@ =~= hotkeys_of(event.keysyms@.subrange(0, i + 1)));
                }
                i += 1;
            }
            proof {
                assert(event.keysyms@.subrange(0, event.keysyms@.len() as int)
                    =~= event.keysyms@);
            }
        }

        let seat_notify = match state.seat_handle {
            Some(seat) => {
                match state.broker.access(seat) {
                    Ok(()) => Some(SeatKeyNotify {
                        modifiers: live_modifiers,
                        time_msec: event.time_msec,
                        keycode: event.keycode,
                        pressed: event.pressed,
                    }),
                    Err(_) => None,
                }
            }
            None => None,
        };
        KeyDispatch { actions, seat_notify }
    }
}

} // verus!
