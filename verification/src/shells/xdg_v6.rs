//! The shell-surface registry: creation and destruction of client
//! surfaces.
//!
//! A new shell surface is appended to the ordered surface list — the
//! order is the render order, so later surfaces paint on top — and every
//! attached output is asked to schedule a repaint.  When the backend
//! reports a surface destroyed, its handle is retired in the broker, the
//! first matching registry entry is removed, and a keyboard focus that
//! pointed at it is cleared.

use vstd::prelude::*;

use crate::handle::{Broker, Handle};
use crate::state::{CompositorState, LayoutEntry};

verus! {

/// What the runtime must do after a surface was registered: ping the
/// new surface's client, and schedule a frame on each listed output.
pub struct SurfaceAddedActions {
    /// The surface to ping.
    pub ping: Handle,
    /// Every output attached to the layout, in layout order.
    pub schedule_frames: Vec<Handle>,
}

/// `s` with its first occurrence of `x` removed, if any.
pub open spec fn remove_first(s: Seq<Handle>, x: Handle) -> Seq<Handle>
    decreases s.len(),
{
    if s.len() == 0 {
        s
    } else if s[0] == x {
        s.drop_first()
    } else {
        seq![s[0]] + remove_first(s.drop_first(), x)
    }
}

/// Removing an element takes exactly one entry away when it is present
/// and none when it is not, and no other element disappears.
pub proof fn lemma_remove_first(s: Seq<Handle>, x: Handle)
    ensures
        s.contains(x) ==> remove_first(s, x).len() == s.len() - 1,
        !s.contains(x) ==> remove_first(s, x) == s,
        forall|y: Handle| y != x && s.contains(y) ==> remove_first(s, x).contains(y),
    decreases s.len(),
{
    if s.len() > 0 {
        lemma_remove_first(s.drop_first(), x);
        if s[0] == x {
            assert forall|y: Handle| y != x && s.contains(y) implies
                remove_first(s, x).contains(y) by {
                let i = choose|i: int| 0 <= i < s.len() && s[i] == y;
                assert(s.drop_first()[i - 1] == y);
            }
        } else {
            if s.contains(x) {
                let i = choose|i: int| 0 <= i < s.len() && s[i] == x;
                assert(s.drop_first()[i - 1] == x);
            }
            if !s.contains(x) {
                assert forall|i: int| 0 <= i < s.drop_first().len() implies
                    s.drop_first()[i] != x by {
                    assert(s.drop_first()[i] == s[i + 1]);
                }
                assert(remove_first(s.drop_first(), x) == s.drop_first());
                assert(remove_first(s, x) =~= s);
            }
            assert forall|y: Handle| y != x && s.contains(y) implies
                remove_first(s, x).contains(y) by {
                let i = choose|i: int| 0 <= i < s.len() && s[i] == y;
                if i == 0 {
                    assert(remove_first(s, x)[0] == y);
                } else {
                    assert(s.drop_first()[i - 1] == y);
                    assert(s.drop_first().contains(y));
                    assert(remove_first(s.drop_first(), x).contains(y));
                    let j = choose|j: int| 0 <= j < remove_first(s.drop_first(), x).len()
                        && remove_first(s.drop_first(), x)[j] == y;
                    assert(remove_first(s, x)
                        == seq![s[0]] + remove_first(s.drop_first(), x));
                    assert((seq![s[0]] + remove_first(s.drop_first(), x))[j + 1]
                        == remove_first(s.drop_first(), x)[j]);
                    assert(remove_first(s, x)[j + 1] == y);
                }
            }
        }
    }
}

/// A new shell surface: issue a weak handle for it, append it to the
/// surface list, and ask for a client ping plus a repaint of every
/// attached output.
pub fn surface_added(state: &mut CompositorState) -> (r: (Handle, SurfaceAddedActions))
    ensures
        final(state).shells@ == old(state).shells@.push(r.0),
        final(state).broker.live(r.0),
        !old(state).broker.live(r.0),
        r.1.ping == r.0,
        r.1.schedule_frames@ == old(state).layout.entries@.map_values(|e: LayoutEntry| e.output),
        old(state).wf() ==> final(state).wf(),
        forall|h2: Handle| h2 != r.0 ==>
            final(state).broker.live(h2) == old(state).broker.live(h2),
        Broker::step_ok(old(state).broker, final(state).broker),
        final(state).keyboards@ == old(state).keyboards@,
        final(state).layout.entries@ == old(state).layout.entries@,
        final(state).seat_handle == old(state).seat_handle,
        final(state).seat == old(state).seat,
        final(state).cursor_handle == old(state).cursor_handle,
        final(state).layout_handle == old(state).layout_handle,
        final(state).terminate_requested == old(state).terminate_requested,
{
    let h = state.broker.create();
    state.shells.push(h);
    let mut schedule_frames: Vec<Handle> = Vec::new();
    let mut i: usize = 0;
    while i < state.layout.entries.len()
        invariant
            i <= state.layout.entries@.len(),
            schedule_frames@.len() == i,
            forall|j: int| 0 <= j < i ==>
                schedule_frames@[j] == state.layout.entries@[j].output,
        decreases state.layout.entries@.len() - i,
    {
        schedule_frames.push(state.layout.entries[i].output);
        i += 1;
    }
    proof {
        assert(schedule_frames@ =~= state.layout.entries@
            .map_values(|e: LayoutEntry| e.output));
        if old(state).wf() && old(state).seat.focus is Some {
            let f = old(state).seat.focus->Some_0;
            let i = choose|i: int| 0 <= i < old(state).shells@.len()
                && old(state).shells@[i] == f;
            assert(state.shells@[i] == f);
        }
    }
    (h, SurfaceAddedActions { ping: h, schedule_frames })
}

/// The backend destroyed a shell surface: retire its handle, drop its
/// first registry entry, and clear a keyboard focus that pointed at it.
///
/// After this call the handle never resolves again; every later access
/// through the broker reports `Destroyed`.
pub fn destroyed(state: &mut CompositorState, surface: Handle)
    ensures
        !final(state).broker.live(surface),
        old(state).broker.live(surface) ==> final(state).broker.retired(surface),
        final(state).shells@ == remove_first(old(state).shells@, surface),
        final(state).seat.focus == (if old(state).seat.focus == Some(surface) {
            None::<Handle>
        } else {
            old(state).seat.focus
        }),
        old(state).wf() ==> final(state).wf(),
        forall|h2: Handle| h2 != surface ==>
            final(state).broker.live(h2) == old(state).broker.live(h2),
        Broker::step_ok(old(state).broker, final(state).broker),
        final(state).keyboards@ == old(state).keyboards@,
        final(state).layout.entries@ == old(state).layout.entries@,
        final(state).seat_handle == old(state).seat_handle,
        final(state).seat == (crate::state::SeatState {
            focus: final(state).seat.focus,
            ..old(state).seat
        }),
        final(state).cursor_handle == old(state).cursor_handle,
        final(state).layout_handle == old(state).layout_handle,
        final(state).terminate_requested == old(state).terminate_requested,
{
    state.broker.destroy(surface);

    let mut i: usize = 0;
    let ghost orig = state.shells@;
    while i < state.shells.len() && state.shells[i] != surface
        invariant
            i <= state.shells@.len(),
            state.shells@ == orig,
            forall|j: int| 0 <= j < i ==> orig[j] != surface,
        decreases state.shells@.len() - i,
    {
        i += 1;
    }
    proof {
        lemma_remove_first_at(orig, surface, i as int);
    }
    if i < state.shells.len() {
        state.shells.remove(i);
    }

    match state.seat.focus {
        Some(f) => {
            if f == surface {
                state.seat.focus = None;
            }
        }
        None => {}
    }
    proof {
        lemma_remove_first(orig, surface);
        if old(state).wf() && state.seat.focus is Some {
            let f = state.seat.focus->Some_0;
            assert(old(state).shells@.contains(f));
            assert(state.shells@.contains(f));
        }
    }
}

/// One step of surface-registry history: the backend reported a surface
/// created or destroyed.
pub enum SurfaceOp {
    Add(Handle),
    Remove(Handle),
}

/// What one history step does to the surface list: [`surface_added`]
/// appends, [`destroyed`] removes the first occurrence — exactly as
/// their contracts state.
pub open spec fn surface_step(s: Seq<Handle>, op: SurfaceOp) -> Seq<Handle> {
    match op {
        SurfaceOp::Add(h) => s.push(h),
        SurfaceOp::Remove(h) => remove_first(s, h),
    }
}

/// The surface list after a whole history of creations and destructions.
pub open spec fn apply_surface_ops(s: Seq<Handle>, ops: Seq<SurfaceOp>) -> Seq<Handle>
    decreases ops.len(),
{
    if ops.len() == 0 {
        s
    } else {
        apply_surface_ops(surface_step(s, ops[0]), ops.drop_first())
    }
}

/// A history the backend can deliver: every destruction names a surface
/// registered at that moment (the backend destroys a surface at most
/// once, and only after reporting its creation).
pub open spec fn ops_valid(s: Seq<Handle>, ops: Seq<SurfaceOp>) -> bool
    decreases ops.len(),
{
    ops.len() == 0 || {
        &&& (match ops[0] {
            SurfaceOp::Add(_) => true,
            SurfaceOp::Remove(h) => s.contains(h),
        })
        &&& ops_valid(surface_step(s, ops[0]), ops.drop_first())
    }
}

/// How many creations a history holds.
pub open spec fn creations(ops: Seq<SurfaceOp>) -> int
    decreases ops.len(),
{
    if ops.len() == 0 {
        0
    } else {
        (match ops[0] {
            SurfaceOp::Add(_) => 1int,
            SurfaceOp::Remove(_) => 0int,
        }) + creations(ops.drop_first())
    }
}

/// How many destructions a history holds.
pub open spec fn destructions(ops: Seq<SurfaceOp>) -> int
    decreases ops.len(),
{
    if ops.len() == 0 {
        0
    } else {
        (match ops[0] {
            SurfaceOp::Add(_) => 0int,
            SurfaceOp::Remove(_) => 1int,
        }) + destructions(ops.drop_first())
    }
}

/// Law of the surface registry: over any deliverable history of surface
/// creations and destructions, the registry's length equals its starting
/// length plus creations minus destructions — in particular destructions
/// can never outnumber what was there to destroy, so the count never
/// goes negative.  The same law applied to each prefix of the history
/// bounds the length at every intermediate moment.
pub proof fn lemma_registry_balance(s: Seq<Handle>, ops: Seq<SurfaceOp>)
    requires
        ops_valid(s, ops),
    ensures
        apply_surface_ops(s, ops).len() == s.len() + creations(ops) - destructions(ops),
        destructions(ops) <= s.len() + creations(ops),
    decreases ops.len(),
{
    if ops.len() > 0 {
        match ops[0] {
            SurfaceOp::Add(_) => {}
            SurfaceOp::Remove(h) => {
                lemma_remove_first(s, h);
            }
        }
        lemma_registry_balance(surface_step(s, ops[0]), ops.drop_first());
    }
}

/// Scanning for the first occurrence and removing it at its index is the
/// same as `remove_first`.
proof fn lemma_remove_first_at(s: Seq<Handle>, x: Handle, i: int)
    requires
        0 <= i <= s.len(),
        forall|j: int| 0 <= j < i ==> s[j] != x,
        i < s.len() ==> s[i] == x,
    ensures
        i < s.len() ==> remove_first(s, x) == s.remove(i),
        i == s.len() ==> remove_first(s, x) == s,
    decreases i,
{
    if i == 0 {
        if s.len() > 0 && s[0] == x {
            assert(remove_first(s, x) =~= s.remove(0));
        }
    } else {
        lemma_remove_first_at(s.drop_first(), x, i - 1);
        if i < s.len() {
            assert(s.drop_first()[i - 1] == x);
            assert(remove_first(s, x) =~= (seq![s[0]] + s.drop_first().remove(i - 1)));
            assert(seq![s[0]] + s.drop_first().remove(i - 1) =~= s.remove(i));
        } else {
            assert forall|j: int| 0 <= j < s.drop_first().len() implies
                s.drop_first()[j] != x by {
                assert(s.drop_first()[j] == s[j + 1]);
            }
            assert(remove_first(s, x) =~= s);
        }
    }
}

} // verus!
