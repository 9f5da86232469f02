use compositor_core::geometry::Rect;
use compositor_core::output::manager::output_added;
use compositor_core::output::output::{Output, SurfaceSnapshot};
use compositor_core::shells::xdg_v6::{destroyed, surface_added};
use compositor_core::state::CompositorState;

fn snap(width: i32, height: i32) -> SurfaceSnapshot {
    SurfaceSnapshot { width, height, has_texture: true }
}

#[test]
fn output_added_places_outputs_left_to_right() {
    let mut state = CompositorState::new();
    let (o1, setup1) = output_added(&mut state, 800, 600, 1);
    let setup1 = setup1.expect("cursor and layout are alive");
    assert_eq!(setup1.output, o1);
    assert_eq!(setup1.scale, 1);
    let (o2, setup2) = output_added(&mut state, 1024, 768, 2);
    assert!(setup2.is_some());
    assert_eq!(state.layout.entries.len(), 2);
    assert_eq!(
        state.layout.entries[0].region,
        Rect { x: 0, y: 0, width: 800, height: 600 }
    );
    assert_eq!(
        state.layout.entries[1].region,
        Rect { x: 800, y: 0, width: 1024, height: 768 }
    );
    assert_eq!(state.layout.entries[1].output, o2);
}

#[test]
fn surface_drawn_iff_it_overlaps_the_output_region() {
    let mut state = CompositorState::new();
    let (o1, _) = output_added(&mut state, 800, 600, 1);
    let (o2, _) = output_added(&mut state, 800, 600, 1);
    let (s_small, _) = surface_added(&mut state);
    let (s_wide, _) = surface_added(&mut state);
    let handler = Output;

    // Both surfaces sit at the layout origin.  The small one (400 wide)
    // overlaps only the first output; the wide one (1000 wide) spills
    // into the second output's region, which starts at x = 800.
    let snapshots = vec![snap(400, 300), snap(1000, 300)];
    let plan1 = handler.on_frame(&state, o1, 1, &snapshots).expect("output is alive");
    let drawn1: Vec<_> = plan1.draws.iter().map(|d| d.surface).collect();
    assert_eq!(drawn1, vec![s_small, s_wide]);

    let plan2 = handler.on_frame(&state, o2, 1, &snapshots).expect("output is alive");
    let drawn2: Vec<_> = plan2.draws.iter().map(|d| d.surface).collect();
    assert_eq!(drawn2, vec![s_wide]);

    // The skipped surface got no draw command, hence no frame-done
    // notification, for the second output.
    assert!(plan2.draws.iter().all(|d| d.surface != s_small));
}

#[test]
fn scale_grows_the_placement_box() {
    let mut state = CompositorState::new();
    let (o1, _) = output_added(&mut state, 800, 600, 1);
    let (o2, _) = output_added(&mut state, 800, 600, 2);
    let (_s, _) = surface_added(&mut state);
    let handler = Output;
    // At scale 1 a 500-wide surface stays inside the first output; at
    // scale 2 its box reaches x = 1000 and also covers the second.
    let snapshots = vec![snap(500, 300)];
    let plan2 = handler.on_frame(&state, o2, 2, &snapshots).expect("output is alive");
    assert_eq!(plan2.draws.len(), 1);
    assert_eq!(
        plan2.draws[0].area,
        Rect { x: 0, y: 0, width: 1000, height: 600 }
    );
    let plan1 = handler.on_frame(&state, o2, 1, &snapshots).expect("output is alive");
    assert_eq!(plan1.draws.len(), 0);
    let _ = o1;
}

#[test]
fn destroyed_surface_is_skipped_without_a_frame_done() {
    let mut state = CompositorState::new();
    let (o1, _) = output_added(&mut state, 800, 600, 1);
    let (s1, _) = surface_added(&mut state);
    let (s2, _) = surface_added(&mut state);
    destroyed(&mut state, s1);
    let handler = Output;
    let snapshots = vec![snap(100, 100)];
    let plan = handler.on_frame(&state, o1, 1, &snapshots).expect("output is alive");
    let drawn: Vec<_> = plan.draws.iter().map(|d| d.surface).collect();
    assert_eq!(drawn, vec![s2]);
}

#[test]
fn dead_output_skips_the_frame() {
    let mut state = CompositorState::new();
    let (o1, _) = output_added(&mut state, 800, 600, 1);
    let (_s, _) = surface_added(&mut state);
    state.broker.destroy(o1);
    let handler = Output;
    let snapshots = vec![snap(100, 100)];
    assert!(handler.on_frame(&state, o1, 1, &snapshots).is_none());
}

#[test]
fn surface_without_texture_is_presented_but_not_painted() {
    let mut state = CompositorState::new();
    let (o1, _) = output_added(&mut state, 800, 600, 1);
    let (s1, _) = surface_added(&mut state);
    let handler = Output;
    let snapshots = vec![SurfaceSnapshot { width: 100, height: 100, has_texture: false }];
    let plan = handler.on_frame(&state, o1, 1, &snapshots).expect("output is alive");
    assert_eq!(plan.draws.len(), 1);
    assert_eq!(plan.draws[0].surface, s1);
    assert!(!plan.draws[0].draw_texture);
}

#[test]
fn empty_surface_overlaps_nothing() {
    let mut state = CompositorState::new();
    let (o1, _) = output_added(&mut state, 800, 600, 1);
    let (_s, _) = surface_added(&mut state);
    let handler = Output;
    let snapshots = vec![snap(0, 0)];
    let plan = handler.on_frame(&state, o1, 1, &snapshots).expect("output is alive");
    assert_eq!(plan.draws.len(), 0);
}

#[test]
fn rect_intersection_is_strict_overlap() {
    let a = Rect { x: 0, y: 0, width: 100, height: 100 };
    let touching = Rect { x: 100, y: 0, width: 50, height: 100 };
    let inside = Rect { x: 99, y: 99, width: 10, height: 10 };
    assert!(!a.intersects(&touching));
    assert!(a.intersects(&inside));
    assert!(inside.intersects(&a));
}

#[test]
fn frame_for_one_output_ignores_other_outputs() {
    // Two frame callbacks registered for two distinct outputs must not
    // cross-talk: each plans only by its own layout intersection.
    let mut state = CompositorState::new();
    let (o1, _) = output_added(&mut state, 800, 600, 1);
    let (_s, _) = surface_added(&mut state);
    let handler = Output;
    let snapshots = vec![snap(100, 100)];
    let before = handler.on_frame(&state, o1, 1, &snapshots).expect("alive");
    // A second output arrives; the first output's plan is unchanged.
    let (_o2, _) = output_added(&mut state, 1024, 768, 1);
    let after = handler.on_frame(&state, o1, 1, &snapshots).expect("alive");
    let surfaces = |p: &compositor_core::output::output::FramePlan| {
        p.draws.iter().map(|d| d.surface).collect::<Vec<_>>()
    };
    assert_eq!(surfaces(&before), surfaces(&after));
}
