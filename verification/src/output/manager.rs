//! Output arrival: placement in the layout and cursor setup.
//!
//! A new output is placed automatically in the output layout and the
//! cursor is prepared for it: the cursor theme is loaded at the output's
//! scale, the cursor image is set, and the cursor is warped to its own
//! current position so it shows up on the new output.  The layout, the
//! cursor and the new output are acquired atomically: if any of them is
//! gone, the whole setup is skipped.

use vstd::prelude::*;

use crate::handle::{Broker, Handle};
use crate::state::{right_edge, CompositorState, LayoutEntry};
use crate::geometry::Rect;

verus! {

/// Cursor work owed after an output was placed: attach the cursor to the
/// layout, load the cursor theme at the output's scale, set the cursor
/// image, and warp the cursor to its current coordinates.
#[derive(Clone, Copy, PartialEq, Eq, Structural, Debug)]
pub struct OutputSetup {
    pub cursor: Handle,
    pub layout: Handle,
    pub output: Handle,
    /// The output's integral scale factor, for the theme load.
    pub scale: i32,
}

/// The backend reported an output with the given mode size and scale:
/// issue its handle and, when the layout object and the cursor are both
/// alive, place the output at the right edge of the occupied space and
/// owe the cursor setup.  When either is gone — or the placement would
/// leave the coordinate space — nothing is placed and no setup is owed.
pub fn output_added(
    state: &mut CompositorState,
    width: i32,
    height: i32,
    scale: i32,
) -> (r: (Handle, Option<OutputSetup>))
    ensures
        final(state).broker.live(r.0),
        !old(state).broker.live(r.0),
        r.1 is Some <==> (old(state).broker.live(old(state).layout_handle)
            && old(state).cursor_live()
            && right_edge(old(state).layout.entries@) + width <= i64::MAX
            && right_edge(old(state).layout.entries@) <= i64::MAX),
        r.1 matches Some(setup) ==> {
            &&& setup == (OutputSetup {
                cursor: old(state).cursor_handle,
                layout: old(state).layout_handle,
                output: r.0,
                scale,
            })
            &&& final(state).layout.entries@ == old(state).layout.entries@.push(LayoutEntry {
                output: r.0,
                region: Rect {
                    x: right_edge(old(state).layout.entries@) as i64,
                    y: 0,
                    width: width as i64,
                    height: height as i64,
                },
            })
        },
        r.1 is None ==> final(state).layout.entries@ == old(state).layout.entries@,
        old(state).wf() ==> final(state).wf(),
        forall|h2: Handle| h2 != r.0 ==>
            final(state).broker.live(h2) == old(state).broker.live(h2),
        Broker::step_ok(old(state).broker, final(state).broker),
        final(state).shells@ == old(state).shells@,
        final(state).keyboards@ == old(state).keyboards@,
        final(state).seat_handle == old(state).seat_handle,
        final(state).seat == old(state).seat,
        final(state).cursor_handle == old(state).cursor_handle,
        final(state).layout_handle == old(state).layout_handle,
        final(state).terminate_requested == old(state).terminate_requested,
{
    let layout_alive = state.broker.access(state.layout_handle).is_ok();
    let cursor_alive = state.broker.access(state.cursor_handle).is_ok();
    let h = state.broker.create();
    if layout_alive && cursor_alive {
        let placed = state.layout.add_auto(h, width, height);
        if placed {
            return (
                h,
                Some(OutputSetup {
                    cursor: state.cursor_handle,
                    layout: state.layout_handle,
                    output: h,
                    scale,
                }),
            );
        }
    }
    (h, None)
}

} // verus!
