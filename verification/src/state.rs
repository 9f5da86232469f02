//! The process-wide compositor state.
//!
//! One [`CompositorState`] exists for the whole run: it owns the handle
//! [`Broker`], the weak handles to the cursor and the output layout, the
//! ordered registries of keyboards and shell surfaces, and the seat.  It
//! is created once before the event loop starts and is handed to every
//! event handler in turn; no handler runs concurrently with another.

use vstd::prelude::*;

use crate::geometry::Rect;
use crate::handle::{Broker, Handle};

verus! {

/// The seat: which input capabilities it advertises and which surface
/// currently holds keyboard focus.
#[derive(Clone, Copy, PartialEq, Eq, Structural, Debug)]
pub struct SeatState {
    pub keyboard: bool,
    pub pointer: bool,
    pub touch: bool,
    pub focus: Option<Handle>,
}

/// One output's place in layout space.
#[derive(Clone, Copy, PartialEq, Eq, Structural, Debug)]
pub struct LayoutEntry {
    pub output: Handle,
    pub region: Rect,
}

/// The spatial arrangement of outputs, mirrored from the backend's
/// output-layout object: each attached output with its region in the
/// shared layout coordinate space.
pub struct OutputLayout {
    pub entries: Vec<LayoutEntry>,
}

/// The region an output occupies in layout space, if it is attached.
/// When an output appears more than once, the first entry counts.
pub open spec fn region_of(entries: Seq<LayoutEntry>, output: Handle) -> Option<Rect>
    decreases entries.len(),
{
    if entries.len() == 0 {
        None
    } else if entries[0].output == output {
        Some(entries[0].region)
    } else {
        region_of(entries.drop_first(), output)
    }
}

/// The right edge of the space already occupied by outputs: where the
/// next automatically placed output starts.
pub open spec fn right_edge(entries: Seq<LayoutEntry>) -> int
    decreases entries.len(),
{
    if entries.len() == 0 {
        0
    } else {
        let rest = right_edge(entries.drop_first());
        let edge = entries[0].region.x + entries[0].region.width;
        if edge > rest {
            edge
        } else {
            rest
        }
    }
}

/// The occupied space never extends left of the origin and never past
/// twice the coordinate range of a single output region.
pub proof fn lemma_right_edge_bounds(entries: Seq<LayoutEntry>)
    ensures
        0 <= right_edge(entries) <= i64::MAX as int + i64::MAX as int,
    decreases entries.len(),
{
    if entries.len() > 0 {
        lemma_right_edge_bounds(entries.drop_first());
    }
}

impl OutputLayout {
    /// A layout with no outputs attached.
    pub fn new() -> (l: OutputLayout)
        ensures
            l.entries@ == Seq::<LayoutEntry>::empty(),
    {
        OutputLayout { entries: Vec::new() }
    }

    /// Attach an output, placing it automatically: at the right edge of
    /// the space already occupied, top-aligned.  Returns false — and
    /// attaches nothing — only if the placement would not fit in the
    /// coordinate space.
    pub fn add_auto(&mut self, output: Handle, width: i32, height: i32) -> (ok: bool)
        ensures
            ok ==> final(self).entries@ == old(self).entries@.push(LayoutEntry {
                output,
                region: Rect {
                    x: right_edge(old(self).entries@) as i64,
                    y: 0,
                    width: width as i64,
                    height: height as i64,
                },
            }),
            !ok ==> *final(self) == *old(self),
            ok == (right_edge(old(self).entries@) + width <= i64::MAX
                && right_edge(old(self).entries@) <= i64::MAX),
    {
        let edge = self.right_edge_exec();
        proof {
            lemma_right_edge_bounds(self.entries@);
        }
        if edge + (width as i128) <= i64::MAX as i128 && edge <= i64::MAX as i128 {
            self.entries.push(LayoutEntry {
                output,
                region: Rect { x: edge as i64, y: 0, width: width as i64, height: height as i64 },
            });
            true
        } else {
            false
        }
    }

    /// The right edge of the occupied space, computed over the entries.
    pub fn right_edge_exec(&self) -> (edge: i128)
        ensures
            edge == right_edge(self.entries@),
    {
        let mut edge: i128 = 0;
        let mut i: usize = self.entries.len();
        while i > 0
            invariant
                i <= self.entries@.len(),
                edge == right_edge(self.entries@.subrange(i as int, self.entries@.len() as int)),
            decreases i,
        {
            i -= 1;
            let e = &self.entries[i];
            let this_edge: i128 = e.region.x as i128 + e.region.width as i128;
            proof {
                assert(self.entries@.subrange(i as int, self.entries@.len() as int)
                    .drop_first() =~= self.entries@.subrange(i + 1, self.entries@.len() as int));
            }
            if this_edge > edge {
                edge = this_edge;
            }
        }
        proof {
            assert(self.entries@.subrange(0, self.entries@.len() as int) =~= self.entries@);
        }
        edge
    }

    /// Whether `area` overlaps the region of `output` in this layout.
    /// An output that is not attached intersects nothing.
    pub fn intersects(&self, output: Handle, area: &Rect) -> (r: bool)
        ensures
            r == (match region_of(self.entries@, output) {
                Some(region) => crate::geometry::overlaps(region, *area),
                None => false,
            }),
    {
        proof {
            assert(self.entries@.subrange(0, self.entries@.len() as int) =~= self.entries@);
        }
        let mut i: usize = 0;
        while i < self.entries.len()
            invariant
                i <= self.entries@.len(),
                region_of(self.entries@, output)
                    == region_of(self.entries@.subrange(i as int, self.entries@.len() as int),
                        output),
            decreases self.entries@.len() - i,
        {
            proof {
                assert(self.entries@.subrange(i as int, self.entries@.len() as int)
                    .drop_first() =~= self.entries@.subrange(i + 1, self.entries@.len() as int));
            }
            if self.entries[i].output == output {
                return self.entries[i].region.intersects(area);
            }
            i += 1;
        }
        false
    }
}

/// The single compositor-wide resource registry.
///
/// `keyboards` and `shells` are ordered by insertion; for `shells` that
/// order is the render order, so a later surface is painted after — on
/// top of — an earlier one.
pub struct CompositorState {
    /// Liveness arena behind every stored handle.
    pub broker: Broker,
    /// Weak handle to the backend cursor object.
    pub cursor_handle: Handle,
    /// Weak handle to the backend output-layout object.
    pub layout_handle: Handle,
    /// Model of the output layout's contents.
    pub layout: OutputLayout,
    /// Keyboards, in order of attachment.
    pub keyboards: Vec<Handle>,
    /// Shell surfaces, in render order.
    pub shells: Vec<Handle>,
    /// The seat, absent only during bootstrap.
    pub seat_handle: Option<Handle>,
    /// Capabilities and keyboard focus of the seat.
    pub seat: SeatState,
    /// Set by the terminate hotkey; the run loop stops at the next
    /// iteration boundary once it is set.
    pub terminate_requested: bool,
}

impl CompositorState {
    /// Keyboard focus, when present, points at a registered surface.
    pub open spec fn wf(self) -> bool {
        match self.seat.focus {
            Some(f) => self.shells@.contains(f),
            None => true,
        }
    }

    /// The seat exists and its backend object is alive.
    pub open spec fn seat_live(self) -> bool {
        match self.seat_handle {
            Some(h) => self.broker.live(h),
            None => false,
        }
    }

    /// The backend cursor object is alive.
    pub open spec fn cursor_live(self) -> bool {
        self.broker.live(self.cursor_handle)
    }

    /// Fresh state for bootstrap: a broker with handles for the cursor
    /// and the output layout, empty registries, no seat yet, and no
    /// termination requested.
    pub fn new() -> (s: CompositorState)
        ensures
            s.wf(),
            s.broker.live(s.cursor_handle),
            s.broker.live(s.layout_handle),
            s.cursor_handle != s.layout_handle,
            s.layout.entries@ == Seq::<LayoutEntry>::empty(),
            s.keyboards@ == Seq::<Handle>::empty(),
            s.shells@ == Seq::<Handle>::empty(),
            s.seat_handle is None,
            s.seat.focus is None,
            !s.terminate_requested,
    {
        let mut broker = Broker::new();
        let cursor_handle = broker.create();
        let layout_handle = broker.create();
        CompositorState {
            broker,
            cursor_handle,
            layout_handle,
            layout: OutputLayout::new(),
            keyboards: Vec::new(),
            shells: Vec::new(),
            seat_handle: None,
            seat: SeatState { keyboard: false, pointer: false, touch: false, focus: None },
            terminate_requested: false,
        }
    }

    /// Bootstrap step: create the seat and grant it every capability.
    /// After this the seat handle is always present.
    pub fn install_seat(&mut self) -> (h: Handle)
        ensures
            final(self).seat_handle == Some(h),
            final(self).broker.live(h),
            final(self).seat == (SeatState {
                keyboard: true,
                pointer: true,
                touch: true,
                focus: None,
            }),
            final(self).seat_live(),
            old(self).wf() ==> final(self).wf(),
            final(self).shells@ == old(self).shells@,
            final(self).keyboards@ == old(self).keyboards@,
            final(self).layout.entries@ == old(self).layout.entries@,
            final(self).cursor_handle == old(self).cursor_handle,
            final(self).layout_handle == old(self).layout_handle,
            final(self).terminate_requested == old(self).terminate_requested,
            forall|h2: Handle| h2 != h ==>
                final(self).broker.live(h2) == old(self).broker.live(h2),
            Broker::step_ok(old(self).broker, final(self).broker),
    {
        let h = self.broker.create();
        self.seat_handle = Some(h);
        self.seat = SeatState { keyboard: true, pointer: true, touch: true, focus: None };
        h
    }
}

} // verus!
