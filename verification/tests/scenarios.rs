use path_browser::overlay::{
    ARROW_WIDTH_FACTOR, LANE_WIDTH, UNZOOMED_ALPHA_PCT, UNZOOMED_MARKER_SCALE_TENTHS,
    ZOOMED_ALPHA_PCT, ZOOMED_MARKER_SCALE_TENTHS,
};
use path_browser::{
    Action, BrowserView, FrequencyTable, Mode, NavState, Path, PathEntity, Polyline, Pt,
    PathSet, Rect, Transition,
};

fn pt(x: i64, y: i64) -> Pt {
    Pt { x, y }
}

fn rect(min_x: i64, min_y: i64, max_x: i64, max_y: i64) -> Rect {
    Rect { min_x, min_y, max_x, max_y }
}

fn path_with_geometry(steps: Vec<PathEntity>, pts: Vec<Pt>) -> Path {
    Path { steps, geometry: Some(Polyline::new(pts).unwrap()) }
}

fn degenerate_path(steps: Vec<PathEntity>) -> Path {
    Path { steps, geometry: None }
}

/// Three paths through two roads and one intersection; the middle path is
/// degenerate (it resolved to no geometry).
fn sample_path_set() -> PathSet {
    let paths = vec![
        path_with_geometry(
            vec![PathEntity::Edge(1), PathEntity::Node(4), PathEntity::Edge(2)],
            vec![pt(0, 0), pt(50, 0), pt(100, 0)],
        ),
        degenerate_path(vec![PathEntity::Edge(1)]),
        path_with_geometry(
            vec![PathEntity::Edge(2)],
            vec![pt(100, 0), pt(100, 80)],
        ),
    ];
    let by_edge = FrequencyTable::from_entries(vec![(1, 2), (2, 2)]);
    let by_node = FrequencyTable::from_entries(vec![(4, 1)]);
    PathSet { paths, by_edge, by_node }
}

fn sample_entities() -> Vec<(PathEntity, Rect)> {
    vec![
        (PathEntity::Edge(1), rect(0, -5, 50, 5)),
        (PathEntity::Edge(2), rect(50, -5, 100, 5)),
        (PathEntity::Node(4), rect(45, -5, 55, 5)),
        (PathEntity::Node(9), rect(200, 200, 210, 210)),
    ]
}

fn sample_browser() -> BrowserView {
    BrowserView::new(42, sample_path_set(), &sample_entities(), 10)
}

#[test]
fn browsing_starts_at_the_first_path_with_the_heatmap() {
    let b = sample_browser();
    assert_eq!(b.nav().state(), NavState::Browsing { cursor: 0, mode: Mode::Heatmap });
    let d = b.current_overlay().drawing.as_ref().unwrap();
    assert_eq!(d.start_marker, pt(0, 0));
    assert_eq!(d.goal_marker, pt(100, 0));
}

#[test]
fn three_paths_with_a_degenerate_middle() {
    let mut b = sample_browser();
    assert_eq!(b.nav().state(), NavState::Browsing { cursor: 0, mode: Mode::Heatmap });
    assert!(!b.current_overlay().is_empty());

    assert_eq!(b.handle(Action::Next), Transition::Keep);
    assert_eq!(b.nav().state(), NavState::Browsing { cursor: 1, mode: Mode::SinglePath });
    assert!(b.current_overlay().is_empty());

    assert_eq!(b.handle(Action::Next), Transition::Keep);
    assert_eq!(b.nav().state(), NavState::Browsing { cursor: 2, mode: Mode::SinglePath });
    let d = b.current_overlay().drawing.as_ref().unwrap();
    assert_eq!(d.start_marker, pt(100, 0));
    assert_eq!(d.goal_marker, pt(100, 80));

    // Already at the last index: a further step is a no-op.
    assert_eq!(b.handle(Action::Next), Transition::Keep);
    assert_eq!(b.nav().state(), NavState::Browsing { cursor: 2, mode: Mode::SinglePath });
    assert!(!b.current_overlay().is_empty());
}

#[test]
fn empty_path_set_only_exits() {
    let mut b = BrowserView::new(
        7,
        PathSet {
            paths: vec![],
            by_edge: FrequencyTable::new(),
            by_node: FrequencyTable::new(),
        },
        &sample_entities(),
        10,
    );
    assert_eq!(b.nav().state(), NavState::Empty);
    assert!(!b.nav().can_prev());
    assert!(!b.nav().can_next());
    assert_eq!(b.handle(Action::Prev), Transition::Keep);
    assert_eq!(b.handle(Action::Next), Transition::Keep);
    assert_eq!(b.handle(Action::ToggleHeatmap), Transition::Keep);
    assert_eq!(b.nav().state(), NavState::Empty);
    let plan = b.render_plan();
    assert!(plan.show_empty_message);
    assert!(!plan.draw_heatmap && !plan.draw_spatial && !plan.draw_path);
    assert_eq!(b.handle(Action::Exit), Transition::Exit(7));
}

#[test]
fn toggling_twice_restores_the_mode_and_keeps_the_cursor() {
    let mut b = sample_browser();
    b.handle(Action::Next);
    let before = b.nav().state();
    b.handle(Action::ToggleHeatmap);
    assert_eq!(b.nav().state(), NavState::Browsing { cursor: 1, mode: Mode::Heatmap });
    b.handle(Action::ToggleHeatmap);
    assert_eq!(b.nav().state(), before);
}

#[test]
fn render_plan_follows_the_mode() {
    let mut b = sample_browser();
    let plan = b.render_plan();
    assert!(plan.draw_heatmap && plan.draw_spatial);
    assert!(!plan.draw_path && !plan.show_empty_message);
    b.handle(Action::Next);
    let plan = b.render_plan();
    assert!(plan.draw_path);
    assert!(!plan.draw_heatmap && !plan.draw_spatial && !plan.show_empty_message);
}

#[test]
fn exit_hands_back_the_region_context() {
    let mut b = sample_browser();
    assert_eq!(b.region(), 42);
    assert_eq!(b.handle(Action::Exit), Transition::Exit(42));
    // Exiting decided nothing else: the state is as it was.
    assert_eq!(b.nav().state(), NavState::Browsing { cursor: 0, mode: Mode::Heatmap });
}

#[test]
fn arrow_and_markers_follow_the_traced_polyline() {
    let b = sample_browser();
    let d = b.current_overlay().drawing.as_ref().unwrap();
    assert_eq!(d.width, ARROW_WIDTH_FACTOR * LANE_WIDTH);
    assert_eq!(d.width, 750);
    assert_eq!(d.spine.len(), 3);
    assert_eq!(d.spine.pt(1), pt(50, 0));
    assert_eq!(d.unzoomed_alpha_pct, UNZOOMED_ALPHA_PCT);
    assert_eq!(d.zoomed_alpha_pct, ZOOMED_ALPHA_PCT);
    assert_eq!(
        (d.unzoomed_marker_scale_tenths, d.zoomed_marker_scale_tenths),
        (UNZOOMED_MARKER_SCALE_TENTHS, ZOOMED_MARKER_SCALE_TENTHS),
    );
}

#[test]
fn hover_reports_the_entity_and_its_exact_count() {
    let b = sample_browser();
    let hit = b.hover(pt(10, 0)).unwrap();
    assert_eq!(hit.id, PathEntity::Edge(1));
    assert_eq!(hit.tooltip_count, 2);
    let hit = b.hover(pt(80, 3)).unwrap();
    assert_eq!(hit.id, PathEntity::Edge(2));
    assert_eq!(hit.tooltip_count, 2);
    // A registered entity that no path traverses reports count 0.
    let hit = b.hover(pt(205, 205)).unwrap();
    assert_eq!(hit.id, PathEntity::Node(9));
    assert_eq!(hit.tooltip_count, 0);
    // A pointer over nothing hovers nothing.
    assert!(b.hover(pt(500, 500)).is_none());
}

#[test]
fn discovery_invariant_holds_of_consistent_counts() {
    let ps = sample_path_set();
    // Edge 1 and edge 2 are each on two paths, node 4 on one; the tables
    // record exactly that.
    assert!(ps.counts_cover());
}

#[test]
fn discovery_invariant_detects_an_undercounted_entity() {
    let mut ps = sample_path_set();
    // Record edge 1 (traversed by two paths) with too small a count.
    ps.by_edge = FrequencyTable::from_entries(vec![(1, 1), (2, 2)]);
    assert!(!ps.counts_cover());
}

#[test]
fn untraversed_entities_need_no_entry() {
    let ps = PathSet {
        paths: vec![degenerate_path(vec![PathEntity::Edge(1)])],
        by_edge: FrequencyTable::from_entries(vec![(1, 1)]),
        by_node: FrequencyTable::new(),
    };
    assert!(ps.counts_cover());
}

#[test]
fn hover_is_available_in_every_mode() {
    let mut b = sample_browser();
    b.handle(Action::Next);
    let hit = b.hover(pt(50, 0)).unwrap();
    assert_eq!(hit.id, PathEntity::Edge(1));
}
