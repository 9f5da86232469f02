//! Weak handles to backend-owned objects, and the broker that resolves them.
//!
//! The backend owns every output, input device, surface, the cursor and
//! the seat, and may destroy any of them between events.  The compositor
//! therefore never stores a direct reference: it stores a [`Handle`],
//! a weak reference made of a slot index and a generation tag, and asks
//! the [`Broker`] for access at the moment of use.  The broker keeps an
//! arena of generation-tagged slots; a handle resolves only while its
//! slot carries the same generation and is marked alive, so using a
//! handle whose referent is gone is a recoverable [`Destroyed`] outcome,
//! never a stale dereference.
//!
//! Within one event handler no destruction can intervene (the event loop
//! is single-threaded and dispatches one event at a time), which is what
//! makes a successful resolution good for the rest of the handler.

use vstd::prelude::*;

verus! {

/// A weak reference to one backend-owned object.
#[derive(Clone, Copy, PartialEq, Eq, Structural, Debug)]
pub struct Handle {
    pub slot: usize,
    pub generation: u64,
}

/// The referent of a handle no longer exists (or never existed).
#[derive(Clone, Copy, PartialEq, Eq, Structural, Debug)]
pub struct Destroyed;

struct Slot {
    generation: u64,
    alive: bool,
}

/// The arena of liveness slots behind every [`Handle`].
///
/// `create` issues a handle when the backend reports that an object was
/// created; `destroy` retires it when the backend reports destruction.
/// A retired handle never resolves again: a slot is only reused under a
/// strictly larger generation.
pub struct Broker {
    slots: Vec<Slot>,
}

impl Broker {
    /// The handle currently resolves to a live object.
    pub closed spec fn live(self, h: Handle) -> bool {
        &&& h.slot < self.slots@.len()
        &&& self.slots@[h.slot as int].generation == h.generation
        &&& self.slots@[h.slot as int].alive
    }

    /// The handle was overtaken by destruction: its slot either moved to
    /// a larger generation or holds the same generation dead.  A retired
    /// handle is never live and never becomes live again.
    pub closed spec fn retired(self, h: Handle) -> bool {
        &&& h.slot < self.slots@.len()
        &&& {
            ||| self.slots@[h.slot as int].generation > h.generation
            ||| (self.slots@[h.slot as int].generation == h.generation
                && !self.slots@[h.slot as int].alive)
        }
    }

    /// One broker state can follow another in time: liveness may change,
    /// but retirement is forever.  Every mutating operation of the broker
    /// ensures this relation between its old and new state.
    pub open spec fn step_ok(pre: Broker, post: Broker) -> bool {
        forall|h: Handle| pre.retired(h) ==> post.retired(h)
    }

    /// A retired handle does not resolve.
    pub proof fn lemma_retired_not_live(self, h: Handle)
        ensures
            self.retired(h) ==> !self.live(h),
    {
    }

    /// An empty arena: no handle resolves, none is retired.
    pub fn new() -> (b: Broker)
        ensures
            forall|h: Handle| !b.live(h),
            forall|h: Handle| !b.retired(h),
    {
        Broker { slots: Vec::new() }
    }

    /// Issue a handle for an object the backend just created.
    ///
    /// The handle is fresh: it did not resolve before and was never
    /// retired.  No other handle changes its standing.
    pub fn create(&mut self) -> (h: Handle)
        ensures
            final(self).live(h),
            !old(self).live(h),
            !old(self).retired(h),
            !final(self).retired(h),
            forall|h2: Handle| h2 != h ==> final(self).live(h2) == old(self).live(h2),
            forall|h2: Handle| h2 != h ==> final(self).retired(h2) == old(self).retired(h2),
            Broker::step_ok(*old(self), *final(self)),
    {
        let mut i: usize = 0;
        while i < self.slots.len()
            invariant
                *self == *old(self),
                i <= self.slots@.len(),
                forall|j: int| 0 <= j < i ==> (self.slots@[j].alive
                    || self.slots@[j].generation == u64::MAX),
            decreases self.slots@.len() - i,
        {
            if !self.slots[i].alive && self.slots[i].generation < u64::MAX {
                let g: u64 = self.slots[i].generation + 1;
                self.slots[i] = Slot { generation: g, alive: true };
                let h = Handle { slot: i, generation: g };
                proof {
                    assert forall|h2: Handle| h2 != h implies
                        final(self).live(h2) == old(self).live(h2)
                            && final(self).retired(h2) == old(self).retired(h2) by {
                        if h2.slot == i {
                            assert(h2.generation != g);
                        }
                    }
                }
                return h;
            }
            i += 1;
        }
        let slot: usize = self.slots.len();
        self.slots.push(Slot { generation: 0, alive: true });
        let h = Handle { slot, generation: 0 };
        proof {
            assert forall|h2: Handle| h2 != h implies
                final(self).live(h2) == old(self).live(h2)
                    && final(self).retired(h2) == old(self).retired(h2) by {
                if h2.slot == slot {
                    assert(!old(self).live(h2) && !old(self).retired(h2));
                }
            }
        }
        h
    }

    /// Retire a handle: the backend destroyed its referent.
    ///
    /// Tolerant of handles that were already retired or never issued —
    /// both collapse to "does not resolve", as required of a recoverable
    /// destroyed-resource outcome.
    pub fn destroy(&mut self, h: Handle)
        ensures
            !final(self).live(h),
            old(self).live(h) ==> final(self).retired(h),
            !old(self).live(h) ==> *final(self) == *old(self),
            forall|h2: Handle| h2 != h ==> final(self).live(h2) == old(self).live(h2),
            forall|h2: Handle| h2 != h ==> final(self).retired(h2) == old(self).retired(h2),
            Broker::step_ok(*old(self), *final(self)),
    {
        if h.slot < self.slots.len()
            && self.slots[h.slot].generation == h.generation
            && self.slots[h.slot].alive
        {
            self.slots[h.slot] = Slot { generation: h.generation, alive: false };
            proof {
                assert forall|h2: Handle| h2 != h && h2.slot == h.slot implies
                    final(self).live(h2) == old(self).live(h2)
                        && final(self).retired(h2) == old(self).retired(h2) by {
                    assert(h2.generation != h.generation);
                }
            }
        }
    }

    /// Resolve a handle for use inside the current event handler.
    ///
    /// `Ok` exactly when the referent is still alive; `Err(Destroyed)`
    /// is the recoverable outcome for a stale handle.
    pub fn access(&self, h: Handle) -> (r: Result<(), Destroyed>)
        ensures
            r is Ok <==> self.live(h),
    {
        if h.slot < self.slots.len()
            && self.slots[h.slot].generation == h.generation
            && self.slots[h.slot].alive
        {
            Ok(())
        } else {
            Err(Destroyed)
        }
    }

    /// Resolve several handles atomically: all of them or none.
    ///
    /// A multi-handle access succeeds only when every referent is alive;
    /// if any was destroyed, none of the requested work may be performed.
    pub fn access_all(&self, hs: &Vec<Handle>) -> (r: Result<(), Destroyed>)
        ensures
            r is Ok <==> forall|i: int| 0 <= i < hs@.len() ==> self.live(hs@[i]),
    {
        let mut i: usize = 0;
        while i < hs.len()
            invariant
                i <= hs@.len(),
                forall|j: int| 0 <= j < i ==> self.live(hs@[j]),
            decreases hs@.len() - i,
        {
            if self.access(hs[i]).is_err() {
                return Err(Destroyed);
            }
            i += 1;
        }
        Ok(())
    }
}

/// Retirement is forever: along any chain of broker states in which each
/// step is a real broker operation (each satisfies [`Broker::step_ok`]),
/// a handle retired at the start stays retired — and so never resolves —
/// in every later state.
pub proof fn lemma_retired_stays_retired(states: Seq<Broker>, h: Handle)
    requires
        states.len() > 0,
        states[0].retired(h),
        forall|i: int, j: int| 0 <= i && j == i + 1 && j < states.len()
            ==> #[trigger] Broker::step_ok(states[i], states[j]),
    ensures
        forall|i: int| 0 <= i < states.len() ==> states[i].retired(h) && !states[i].live(h),
    decreases states.len(),
{
    if states.len() > 1 {
        assert(Broker::step_ok(states[0], states[1]));
        assert(states[1].retired(h));
        let rest = states.drop_first();
        assert forall|i: int, j: int| 0 <= i && j == i + 1 && j < rest.len() implies
            #[trigger] Broker::step_ok(rest[i], rest[j]) by {
            assert(rest[i] == states[i + 1]);
            assert(rest[j] == states[j + 1]);
            assert(Broker::step_ok(states[i + 1], states[j + 1]));
        }
        lemma_retired_stays_retired(rest, h);
        assert forall|i: int| 0 <= i < states.len() implies
            states[i].retired(h) && !states[i].live(h) by {
            if i > 0 {
                assert(rest[i - 1] == states[i]);
                assert(rest[i - 1].retired(h) && !rest[i - 1].live(h));
            }
            states[i].lemma_retired_not_live(h);
        }
    } else {
        states[0].lemma_retired_not_live(h);
    }
}

} // verus!
