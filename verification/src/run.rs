//! The event loop's decision core.
//!
//! The backend delivers device and protocol events one at a time;
//! [`handle_event`] maps each to its handler and returns what the
//! runtime must do — [`outcome_ok`] restates, per event kind, what the
//! dispatched handler did to the state and what its outcome holds.
//! [`run_events`] models the loop itself: it checks the termination flag
//! at every iteration boundary, so once the terminate hotkey was
//! dispatched the loop exits at the next boundary and no later event is
//! dispatched.

use vstd::prelude::*;

use crate::geometry::Rect;
use crate::handle::{Broker, Handle};
use crate::input::keyboard::{
    hotkeys_of, HotkeyAction, KeyDispatch, KeyEvent, Keyboard, ModifierMasks, SeatKeyNotify,
    KEY_ESCAPE,
};
use crate::input::manager::{keyboard_added, pointer_added, AttachToCursor, SetSeatKeyboard};
use crate::input::pointer::{ButtonDispatch, CursorRequest, Pointer};
use crate::output::manager::{output_added, OutputSetup};
use crate::output::output::{plan_ok, FramePlan, Output, SurfaceSnapshot};
use crate::shells::xdg_v6::{destroyed, remove_first, surface_added, SurfaceAddedActions};
use crate::state::{right_edge, CompositorState, LayoutEntry, SeatState};

verus! {

/// One event as the backend delivers it, together with what the runtime
/// read live from the device at that moment (modifier masks, pressed
/// keycodes, surface snapshots).
pub enum Event {
    Key { event: KeyEvent, live_modifiers: ModifierMasks },
    PointerMotionAbsolute { x: i64, y: i64 },
    PointerMotion { dx: i64, dy: i64 },
    PointerButton { keycodes: Vec<u32>, live_modifiers: ModifierMasks },
    KeyboardAdded,
    PointerAdded,
    OutputAdded { width: i32, height: i32, scale: i32 },
    SurfaceAdded,
    SurfaceDestroyed { surface: Handle },
    OutputFrame { output: Handle, scale: i32, snapshots: Vec<SurfaceSnapshot> },
}

/// What dispatching one event asks the runtime to do.
pub enum EventOutcome {
    Key(KeyDispatch),
    Cursor(Option<CursorRequest>),
    Button(Option<ButtonDispatch>),
    KeyboardAdded(Handle, Option<SetSeatKeyboard>),
    PointerAdded(Handle, Option<AttachToCursor>),
    OutputAdded(Handle, Option<OutputSetup>),
    SurfaceAdded(Handle, SurfaceAddedActions),
    SurfaceDestroyed,
    Frame(Option<FramePlan>),
    /// The event's live data does not match the registry (a frame whose
    /// snapshot count differs from the surface count); nothing happens.
    Skipped,
}

/// Whether this event presses the terminate key.
pub open spec fn is_terminate_event(e: Event) -> bool {
    match e {
        Event::Key { event, .. } => event.pressed && event.keysyms@.contains(KEY_ESCAPE),
        _ => false,
    }
}

/// What dispatching `event` must have done: per event kind, the outcome
/// carries the dispatched handler's result and the state moved exactly
/// as that handler's contract says.
pub open spec fn outcome_ok(
    pre: CompositorState,
    post: CompositorState,
    event: Event,
    o: EventOutcome,
) -> bool {
    match event {
        Event::Key { event: e, live_modifiers } => {
            &&& post.terminate_requested == (pre.terminate_requested
                || (e.pressed && e.keysyms@.contains(KEY_ESCAPE)))
            &&& post == (CompositorState {
                terminate_requested: post.terminate_requested,
                ..pre
            })
            &&& (o matches EventOutcome::Key(d) && {
                &&& (e.pressed ==> d.actions@ == hotkeys_of(e.keysyms@))
                &&& (!e.pressed ==> d.actions@ == Seq::<HotkeyAction>::empty())
                &&& d.seat_notify == (if pre.seat_live() {
                    Some(SeatKeyNotify {
                        modifiers: live_modifiers,
                        time_msec: e.time_msec,
                        keycode: e.keycode,
                        pressed: e.pressed,
                    })
                } else {
                    None::<SeatKeyNotify>
                })
            })
        }
        Event::PointerMotionAbsolute { x, y } => {
            &&& post == pre
            &&& (o matches EventOutcome::Cursor(r) && r == (if pre.cursor_live() {
                Some(CursorRequest::WarpAbsolute { x, y })
            } else {
                None::<CursorRequest>
            }))
        }
        Event::PointerMotion { dx, dy } => {
            &&& post == pre
            &&& (o matches EventOutcome::Cursor(r) && r == (if pre.cursor_live() {
                Some(CursorRequest::Move { dx, dy })
            } else {
                None::<CursorRequest>
            }))
        }
        Event::PointerButton { keycodes, live_modifiers } => {
            o matches EventOutcome::Button(r) && {
                &&& (r is Some <==> (pre.shells@.len() > 0
                    && pre.broker.live(pre.shells@.last())
                    && pre.keyboards@.len() > 0
                    && pre.broker.live(pre.keyboards@[0])
                    && pre.seat_live()))
                &&& (r matches Some(d) ==> {
                    &&& d.surface == pre.shells@.last()
                    &&& d.keyboard == pre.keyboards@[0]
                    &&& d.keycodes@ == keycodes@
                    &&& d.modifiers == live_modifiers
                    &&& post.seat.focus == Some(d.surface)
                    &&& post == (CompositorState { seat: post.seat, ..pre })
                    &&& post.seat == (SeatState { focus: post.seat.focus, ..pre.seat })
                })
                &&& (r is None ==> post == pre)
            }
        }
        Event::KeyboardAdded => {
            o matches EventOutcome::KeyboardAdded(h, bind) && {
                &&& post.keyboards@ == pre.keyboards@.push(h)
                &&& post.broker.live(h)
                &&& !pre.broker.live(h)
                &&& bind == (if pre.seat_live() {
                    Some(SetSeatKeyboard { seat: pre.seat_handle->Some_0, keyboard: h })
                } else {
                    None::<SetSeatKeyboard>
                })
                &&& (forall|h2: Handle| h2 != h ==>
                    post.broker.live(h2) == pre.broker.live(h2))
                &&& Broker::step_ok(pre.broker, post.broker)
                &&& post.shells@ == pre.shells@
                &&& post.layout.entries@ == pre.layout.entries@
                &&& post.seat_handle == pre.seat_handle
                &&& post.seat == pre.seat
                &&& post.cursor_handle == pre.cursor_handle
                &&& post.layout_handle == pre.layout_handle
                &&& post.terminate_requested == pre.terminate_requested
            }
        }
        Event::PointerAdded => {
            o matches EventOutcome::PointerAdded(h, attach) && {
                &&& post.broker.live(h)
                &&& !pre.broker.live(h)
                &&& attach == (if pre.cursor_live() {
                    Some(AttachToCursor { cursor: pre.cursor_handle, pointer: h })
                } else {
                    None::<AttachToCursor>
                })
                &&& (forall|h2: Handle| h2 != h ==>
                    post.broker.live(h2) == pre.broker.live(h2))
                &&& Broker::step_ok(pre.broker, post.broker)
                &&& post == (CompositorState { broker: post.broker, ..pre })
            }
        }
        Event::OutputAdded { width, height, scale } => {
            o matches EventOutcome::OutputAdded(h, setup) && {
                &&& post.broker.live(h)
                &&& !pre.broker.live(h)
                &&& (setup is Some <==> (pre.broker.live(pre.layout_handle)
                    && pre.cursor_live()
                    && right_edge(pre.layout.entries@) + width <= i64::MAX
                    && right_edge(pre.layout.entries@) <= i64::MAX))
                &&& (setup matches Some(su) ==> {
                    &&& su == (OutputSetup {
                        cursor: pre.cursor_handle,
                        layout: pre.layout_handle,
                        output: h,
                        scale,
                    })
                    &&& post.layout.entries@ == pre.layout.entries@.push(LayoutEntry {
                        output: h,
                        region: Rect {
                            x: right_edge(pre.layout.entries@) as i64,
                            y: 0,
                            width: width as i64,
                            height: height as i64,
                        },
                    })
                })
                &&& (setup is None ==> post.layout.entries@ == pre.layout.entries@)
                &&& (forall|h2: Handle| h2 != h ==>
                    post.broker.live(h2) == pre.broker.live(h2))
                &&& Broker::step_ok(pre.broker, post.broker)
                &&& post.shells@ == pre.shells@
                &&& post.keyboards@ == pre.keyboards@
                &&& post.seat_handle == pre.seat_handle
                &&& post.seat == pre.seat
                &&& post.cursor_handle == pre.cursor_handle
                &&& post.layout_handle == pre.layout_handle
                &&& post.terminate_requested == pre.terminate_requested
            }
        }
        Event::SurfaceAdded => {
            o matches EventOutcome::SurfaceAdded(h, a) && {
                &&& post.shells@ == pre.shells@.push(h)
                &&& post.broker.live(h)
                &&& !pre.broker.live(h)
                &&& a.ping == h
                &&& a.schedule_frames@ == pre.layout.entries@.map_values(
                    |en: LayoutEntry| en.output,
                )
                &&& (forall|h2: Handle| h2 != h ==>
                    post.broker.live(h2) == pre.broker.live(h2))
                &&& Broker::step_ok(pre.broker, post.broker)
                &&& post.keyboards@ == pre.keyboards@
                &&& post.layout.entries@ == pre.layout.entries@
                &&& post.seat_handle == pre.seat_handle
                &&& post.seat == pre.seat
                &&& post.cursor_handle == pre.cursor_handle
                &&& post.layout_handle == pre.layout_handle
                &&& post.terminate_requested == pre.terminate_requested
            }
        }
        Event::SurfaceDestroyed { surface } => {
            &&& o matches EventOutcome::SurfaceDestroyed
            &&& !post.broker.live(surface)
            &&& (pre.broker.live(surface) ==> post.broker.retired(surface))
            &&& post.shells@ == remove_first(pre.shells@, surface)
            &&& post.seat.focus == (if pre.seat.focus == Some(surface) {
                None::<Handle>
            } else {
                pre.seat.focus
            })
            &&& (forall|h2: Handle| h2 != surface ==>
                post.broker.live(h2) == pre.broker.live(h2))
            &&& Broker::step_ok(pre.broker, post.broker)
            &&& post.keyboards@ == pre.keyboards@
            &&& post.layout.entries@ == pre.layout.entries@
            &&& post.seat_handle == pre.seat_handle
            &&& post.seat == (SeatState { focus: post.seat.focus, ..pre.seat })
            &&& post.cursor_handle == pre.cursor_handle
            &&& post.layout_handle == pre.layout_handle
            &&& post.terminate_requested == pre.terminate_requested
        }
        Event::OutputFrame { output, scale, snapshots } => {
            &&& post == pre
            &&& (if snapshots@.len() == pre.shells@.len() {
                o matches EventOutcome::Frame(r) && {
                    &&& (r is Some <==> pre.broker.live(output))
                    &&& (r matches Some(plan) ==> plan_ok(pre, output, scale, snapshots@, plan))
                }
            } else {
                o is Skipped
            })
        }
    }
}

/// The outcome is of the kind the event calls for.
pub open spec fn outcome_matches(event: Event, o: EventOutcome) -> bool {
    match event {
        Event::Key { .. } => o is Key,
        Event::PointerMotionAbsolute { .. } => o is Cursor,
        Event::PointerMotion { .. } => o is Cursor,
        Event::PointerButton { .. } => o is Button,
        Event::KeyboardAdded => o is KeyboardAdded,
        Event::PointerAdded => o is PointerAdded,
        Event::OutputAdded { .. } => o is OutputAdded,
        Event::SurfaceAdded => o is SurfaceAdded,
        Event::SurfaceDestroyed { .. } => o is SurfaceDestroyed,
        Event::OutputFrame { .. } => o is Frame || o is Skipped,
    }
}

/// A right dispatch yields an outcome of the right kind.
pub proof fn lemma_outcome_ok_matches(
    pre: CompositorState,
    post: CompositorState,
    event: Event,
    o: EventOutcome,
)
    requires
        outcome_ok(pre, post, event, o),
    ensures
        outcome_matches(event, o),
{
}

/// Dispatch one event to its handler.
///
/// [`outcome_ok`] ties the outcome and the state change to the handler
/// the event selects; besides that, the termination flag is set by
/// exactly the events that press the terminate key, and no event
/// dispatch breaks the focus invariant.
pub fn handle_event(state: &mut CompositorState, event: Event) -> (o: EventOutcome)
    ensures
        outcome_ok(*old(state), *final(state), event, o),
        final(state).terminate_requested == (old(state).terminate_requested
            || is_terminate_event(event)),
        old(state).wf() ==> final(state).wf(),
{
    match event {
        Event::Key { event: e, live_modifiers } => {
            let keyboard = Keyboard;
            EventOutcome::Key(keyboard.on_key(state, &e, live_modifiers))
        }
        Event::PointerMotionAbsolute { x, y } => {
            let pointer = Pointer;
            EventOutcome::Cursor(pointer.on_motion_absolute(state, x, y))
        }
        Event::PointerMotion { dx, dy } => {
            let pointer = Pointer;
            EventOutcome::Cursor(pointer.on_motion(state, dx, dy))
        }
        Event::PointerButton { keycodes, live_modifiers } => {
            let pointer = Pointer;
            EventOutcome::Button(pointer.on_button(state, keycodes, live_modifiers))
        }
        Event::KeyboardAdded => {
            let (h, bind) = keyboard_added(state);
            EventOutcome::KeyboardAdded(h, bind)
        }
        Event::PointerAdded => {
            let (h, attach) = pointer_added(state);
            EventOutcome::PointerAdded(h, attach)
        }
        Event::OutputAdded { width, height, scale } => {
            let (h, setup) = output_added(state, width, height, scale);
            EventOutcome::OutputAdded(h, setup)
        }
        Event::SurfaceAdded => {
            let (h, actions) = surface_added(state);
            EventOutcome::SurfaceAdded(h, actions)
        }
        Event::SurfaceDestroyed { surface } => {
            destroyed(state, surface);
            EventOutcome::SurfaceDestroyed
        }
        Event::OutputFrame { output, scale, snapshots } => {
            if snapshots.len() == state.shells.len() {
                let handler = Output;
                EventOutcome::Frame(handler.on_frame(state, output, scale, &snapshots))
            } else {
                EventOutcome::Skipped
            }
        }
    }
}

/// How many of these events the loop dispatches, entering with the given
/// termination flag: none once the flag is set, and dispatch stops right
/// after the event that presses the terminate key.
pub open spec fn dispatch_count(events: Seq<Event>, stopped: bool) -> int
    decreases events.len(),
{
    if stopped || events.len() == 0 {
        0
    } else {
        1 + dispatch_count(events.drop_first(), is_terminate_event(events[0]))
    }
}

/// The run loop over a delivered event sequence.
///
/// The termination flag is checked at every iteration boundary: pressing
/// the terminate key makes the loop exit at the next boundary, and no
/// event after it is dispatched — the outcomes stop exactly there, and
/// each outcome is of the kind its event calls for.
///
/// The ghost result is the chain of compositor states the loop walked,
/// one per boundary: each dispatched event took the state from one link
/// to the next exactly as [`outcome_ok`] says.
pub fn run_events(state: &mut CompositorState, events: Vec<Event>) -> (r: (
    Vec<EventOutcome>,
    Ghost<Seq<CompositorState>>,
))
    ensures
        ({
            let (outcomes, states) = r;
            &&& outcomes@.len() == dispatch_count(events@, old(state).terminate_requested)
            &&& states@.len() == outcomes@.len() + 1
            &&& states@[0] == *old(state)
            &&& states@.last() == *final(state)
            &&& forall|i: int| 0 <= i < outcomes@.len()
                ==> outcome_ok(states@[i], states@[i + 1], events@[i], #[trigger] outcomes@[i])
            &&& forall|i: int| 0 <= i < outcomes@.len()
                ==> outcome_matches(events@[i], #[trigger] outcomes@[i])
            &&& final(state).terminate_requested == (old(state).terminate_requested
                || exists|i: int| 0 <= i < outcomes@.len()
                    && is_terminate_event(#[trigger] events@[i]))
            &&& (old(state).wf() ==> final(state).wf())
        }),
{
    let ghost orig = events@;
    let mut events = events;
    let mut outcomes: Vec<EventOutcome> = Vec::new();
    let ghost mut states: Seq<CompositorState> = seq![*state];
    while events.len() > 0 && !state.terminate_requested
        invariant
            outcomes@.len() <= orig.len(),
            events@ == orig.subrange(outcomes@.len() as int, orig.len() as int),
            dispatch_count(orig, old(state).terminate_requested) == outcomes@.len() + (
            if state.terminate_requested {
                0int
            } else {
                dispatch_count(events@, false)
            }),
            states.len() == outcomes@.len() + 1,
            states[0] == *old(state),
            states.last() == *state,
            forall|i: int| 0 <= i < outcomes@.len()
                ==> outcome_ok(states[i], states[i + 1], orig[i], #[trigger] outcomes@[i]),
            forall|i: int| 0 <= i < outcomes@.len()
                ==> outcome_matches(orig[i], #[trigger] outcomes@[i]),
            state.terminate_requested == (old(state).terminate_requested
                || exists|i: int| 0 <= i < outcomes@.len()
                    && is_terminate_event(#[trigger] orig[i])),
            old(state).wf() ==> state.wf(),
        decreases events@.len(),
    {
        let ghost k = outcomes@.len() as int;
        let ghost pre_events = events@;
        let event = events.remove(0);
        proof {
            assert(pre_events[0] == orig[k]);
            assert(events@ =~= orig.subrange(k + 1, orig.len() as int));
            assert(dispatch_count(pre_events, false) == 1 + dispatch_count(
                pre_events.drop_first(),
                is_terminate_event(pre_events[0]),
            ));
            assert(pre_events.drop_first() =~= events@);
        }
        let ghost pre_state = *state;
        let outcome = handle_event(state, event);
        proof {
            lemma_outcome_ok_matches(pre_state, *state, orig[k], outcome);
            states = states.push(*state);
        }
        outcomes.push(outcome);
        proof {
            assert(states[k + 1] == *state);
            assert(states.last() == *state);
            assert(outcome_ok(states[k], states[k + 1], orig[k], outcomes@[k]));
            if is_terminate_event(orig[k]) {
                assert(exists|i: int| 0 <= i < outcomes@.len()
                    && is_terminate_event(#[trigger] orig[i]));
            }
        }
    }
    proof {
        if !state.terminate_requested {
            assert(events@.len() == 0);
        }
    }
    (outcomes, Ghost(states))
}

} // verus!
