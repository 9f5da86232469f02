//! The per-output render loop.
//!
//! Once per frame request the compositor walks the registered surfaces
//! in render order and plans the frame: clear the backbuffer, then, for
//! every surface whose placement box overlaps this output's region in
//! the layout, draw its current texture (if it has one) and notify it
//! that its frame was presented.  A surface whose box lies outside the
//! output is skipped and receives no frame-done notification for this
//! output.  Placement is fixed at the layout origin, scaled by the
//! output's scale factor; per-surface positioning is left to a higher
//! window-management layer.

use vstd::prelude::*;

use crate::geometry::{overlaps, Rect};
use crate::handle::Handle;
use crate::state::{region_of, CompositorState};

verus! {

/// What the render loop reads live from one surface at frame time: its
/// current size and whether it has a texture to draw.
#[derive(Clone, Copy, PartialEq, Eq, Structural, Debug)]
pub struct SurfaceSnapshot {
    pub width: i32,
    pub height: i32,
    pub has_texture: bool,
}

/// One planned draw: the surface at registry index `index`, placed at
/// `area` in layout space.  Every listed surface is owed a frame-done
/// notification; its texture is painted only when it has one.
#[derive(Clone, Copy, PartialEq, Eq, Structural, Debug)]
pub struct DrawCommand {
    pub index: usize,
    pub surface: Handle,
    pub area: Rect,
    pub draw_texture: bool,
}

/// The plan for one frame on one output: clear the backbuffer, then the
/// draws in order.
pub struct FramePlan {
    pub draws: Vec<DrawCommand>,
}

/// Where a surface of the given snapshot is placed: at the layout
/// origin, its size scaled by the output's scale factor.
pub open spec fn render_box(snap: SurfaceSnapshot, scale: i32) -> Rect {
    Rect {
        x: 0,
        y: 0,
        width: (snap.width * scale) as i64,
        height: (snap.height * scale) as i64,
    }
}

/// Whether the surface at registry index `i` is presented on `output`
/// this frame: it is still alive and its placement box overlaps the
/// output's region in the layout.  An output without a layout region
/// presents nothing.
pub open spec fn presented(
    state: CompositorState,
    output: Handle,
    scale: i32,
    snaps: Seq<SurfaceSnapshot>,
    i: int,
) -> bool {
    &&& state.broker.live(state.shells@[i])
    &&& (match region_of(state.layout.entries@, output) {
        Some(region) => overlaps(region, render_box(snaps[i], scale)),
        None => false,
    })
}

/// One draw command is right for this frame: it names a presented
/// surface by its registry index, placed at its render box, with its
/// texture painted exactly when it has one.
pub open spec fn draw_ok(
    state: CompositorState,
    output: Handle,
    scale: i32,
    snaps: Seq<SurfaceSnapshot>,
    d: DrawCommand,
) -> bool {
    &&& d.index < state.shells@.len()
    &&& presented(state, output, scale, snaps, d.index as int)
    &&& d.surface == state.shells@[d.index as int]
    &&& d.area == render_box(snaps[d.index as int], scale)
    &&& d.draw_texture == snaps[d.index as int].has_texture
}

/// A frame plan is right for this frame: every draw is right, every
/// presented surface appears in it, and the draws keep the registry's
/// render order.  A surface is drawn — and owed a frame-done
/// notification — if and only if it is presented on this output.
pub open spec fn plan_ok(
    state: CompositorState,
    output: Handle,
    scale: i32,
    snaps: Seq<SurfaceSnapshot>,
    plan: FramePlan,
) -> bool {
    &&& forall|j: int| 0 <= j < plan.draws@.len()
        ==> draw_ok(state, output, scale, snaps, #[trigger] plan.draws@[j])
    &&& forall|i: int| 0 <= i < state.shells@.len()
        && presented(state, output, scale, snaps, i)
        ==> exists|j: int| 0 <= j < plan.draws@.len()
            && #[trigger] plan.draws@[j].index == i
    &&& forall|j1: int, j2: int|
        #![trigger plan.draws@[j1].index, plan.draws@[j2].index]
        0 <= j1 < j2 < plan.draws@.len()
        ==> plan.draws@[j1].index < plan.draws@[j2].index
}

/// The handler attached to every output the backend reports.
pub struct Output;

impl Output {
    /// Plan one frame for `output`.
    ///
    /// `snapshots` holds what the runtime read live from each registered
    /// surface, in registry order.  Returns `None` — skip the frame —
    /// when the output itself can no longer be resolved.  Otherwise the
    /// plan is what [`render_shells`] computes for this output.
    pub fn on_frame(
        &self,
        state: &CompositorState,
        output: Handle,
        scale: i32,
        snapshots: &Vec<SurfaceSnapshot>,
    ) -> (r: Option<FramePlan>)
        requires
            snapshots@.len() == state.shells@.len(),
        ensures
            r is Some <==> state.broker.live(output),
            r matches Some(plan) ==> plan_ok(*state, output, scale, snapshots@, plan),
    {
        if state.broker.access(output).is_err() {
            return None;
        }
        Some(render_shells(state, output, scale, snapshots))
    }
}

/// Walk the registered surfaces in render order and plan the draws for
/// one output.  The plan lists exactly the surfaces presented this
/// frame: those alive whose placement box overlaps this output's layout
/// region.  Each listed surface is drawn at its placement box (texture
/// painted only if present) and is owed a frame-done notification;
/// every other surface is skipped entirely and receives none.
#[verifier::rlimit(60)]
pub fn render_shells(
    state: &CompositorState,
    output: Handle,
    scale: i32,
    snapshots: &Vec<SurfaceSnapshot>,
) -> (plan: FramePlan)
    requires
        snapshots@.len() == state.shells@.len(),
    ensures
        plan_ok(*state, output, scale, snapshots@, plan),
{
    let mut draws: Vec<DrawCommand> = Vec::new();
    let mut i: usize = 0;
    while i < state.shells.len()
        invariant
            snapshots@.len() == state.shells@.len(),
            i <= state.shells@.len(),
            forall|j: int| 0 <= j < draws@.len() ==> {
                let d = #[trigger] draws@[j];
                &&& d.index < i
                &&& draw_ok(*state, output, scale, snapshots@, d)
            },
            forall|i2: int| 0 <= i2 < i
                && presented(*state, output, scale, snapshots@, i2)
                ==> exists|j: int| 0 <= j < draws@.len()
                    && #[trigger] draws@[j].index == i2,
            forall|j1: int, j2: int|
                #![trigger draws@[j1].index, draws@[j2].index]
                0 <= j1 < j2 < draws@.len()
                ==> draws@[j1].index < draws@[j2].index,
        decreases state.shells@.len() - i,
    {
        let snap = snapshots[i];
        proof {
            assert((snap.width as int) * (scale as int) <= i64::MAX
                && (snap.width as int) * (scale as int) >= i64::MIN
                && (snap.height as int) * (scale as int) <= i64::MAX
                && (snap.height as int) * (scale as int) >= i64::MIN)
                by (nonlinear_arith)
                requires
                    -0x8000_0000 <= snap.width as int <= 0x7fff_ffff,
                    -0x8000_0000 <= snap.height as int <= 0x7fff_ffff,
                    -0x8000_0000 <= scale as int <= 0x7fff_ffff,
            {}
        }
        let w: i64 = (snap.width as i64) * (scale as i64);
        let h: i64 = (snap.height as i64) * (scale as i64);
        let area = Rect { x: 0, y: 0, width: w, height: h };
        proof {
            assert(area == render_box(snapshots@[i as int], scale));
        }
        let alive = state.broker.access(state.shells[i]).is_ok();
        let hit = if alive {
            state.layout.intersects(output, &area)
        } else {
            false
        };
        let ghost pre_draws = draws@;
        if alive && hit {
            draws.push(DrawCommand {
                index: i,
                surface: state.shells[i],
                area,
                draw_texture: snap.has_texture,
            });
        }
        proof {
            assert forall|i2: int| 0 <= i2 < i + 1
                && presented(*state, output, scale, snapshots@, i2)
                implies exists|j: int| 0 <= j < draws@.len()
                    && #[trigger] draws@[j].index == i2 by {
                if i2 == i {
                    assert(alive && hit);
                    assert(draws@[draws@.len() - 1].index == i2);
                } else {
                    let j = choose|j: int| 0 <= j < pre_draws.len()
                        && #[trigger] pre_draws[j].index == i2;
                    assert(draws@[j].index == i2);
                }
            }
        }
        i += 1;
    }
    let ghost gdraws = draws@;
    let plan = FramePlan { draws };
    proof {
        assert(plan.draws@ == gdraws);
        assert forall|i2: int| 0 <= i2 < state.shells@.len()
            && presented(*state, output, scale, snapshots@, i2)
            implies exists|j: int| 0 <= j < plan.draws@.len()
                && #[trigger] plan.draws@[j].index == i2 by {
            let j = choose|j: int| 0 <= j < gdraws.len()
                && #[trigger] gdraws[j].index == i2;
            assert(plan.draws@[j].index == i2);
        }
        assert(plan_ok(*state, output, scale, snapshots@, plan));
    }
    plan
}

/// No cross-talk between outputs: the frame plan for an output depends
/// on the layout only through that output's own region.  Two layouts in
/// which this output occupies the same region — however the others moved,
/// appeared or vanished — present exactly the same surfaces, so a frame
/// callback registered for each of several outputs operates only on its
/// own output's layout intersection.
pub proof fn lemma_frame_isolation(
    s1: CompositorState,
    s2: CompositorState,
    output: Handle,
    scale: i32,
    snaps: Seq<SurfaceSnapshot>,
)
    requires
        s1.broker == s2.broker,
        s1.shells@ == s2.shells@,
        region_of(s1.layout.entries@, output) == region_of(s2.layout.entries@, output),
    ensures
        forall|i: int| presented(s1, output, scale, snaps, i)
            == presented(s2, output, scale, snaps, i),
{
}

} // verus!
