use path_browser::{FrequencyTable, HeatmapOverlay, PathEntity, Pt, Rect, SpatialIndex};
use path_browser::overlay::build_heatmap;

fn rect(min_x: i64, min_y: i64, max_x: i64, max_y: i64) -> Rect {
    Rect { min_x, min_y, max_x, max_y }
}

fn edge_slot_of(h: &HeatmapOverlay, id: u64) -> Option<u64> {
    for i in 0..h.edge_slot_count() {
        let (entity, slot) = h.edge_slot(i);
        if entity == id {
            return Some(slot);
        }
    }
    None
}

fn node_slot_of(h: &HeatmapOverlay, id: u64) -> Option<u64> {
    for i in 0..h.node_slot_count() {
        let (entity, slot) = h.node_slot(i);
        if entity == id {
            return Some(slot);
        }
    }
    None
}

#[test]
fn rect_contains_is_inclusive() {
    let r = rect(0, 0, 10, 10);
    assert!(r.contains(Pt { x: 0, y: 0 }));
    assert!(r.contains(Pt { x: 10, y: 10 }));
    assert!(r.contains(Pt { x: 5, y: 7 }));
    assert!(!r.contains(Pt { x: 11, y: 5 }));
    assert!(!r.contains(Pt { x: 5, y: -1 }));
}

#[test]
fn pointer_in_exactly_one_hitbox_hovers_that_entity() {
    let mut idx = SpatialIndex::new();
    idx.add(PathEntity::Edge(1), rect(0, 0, 10, 10), 4);
    idx.add(PathEntity::Node(2), rect(20, 0, 30, 10), 0);
    idx.finalize();
    let hit = idx.hover(Pt { x: 25, y: 5 }).unwrap();
    assert_eq!(hit.id, PathEntity::Node(2));
    assert_eq!(hit.tooltip_count, 0);
    let hit = idx.hover(Pt { x: 3, y: 9 }).unwrap();
    assert_eq!(hit.id, PathEntity::Edge(1));
    assert_eq!(hit.tooltip_count, 4);
}

#[test]
fn pointer_in_no_hitbox_hovers_nothing() {
    let mut idx = SpatialIndex::new();
    idx.add(PathEntity::Edge(1), rect(0, 0, 10, 10), 4);
    idx.finalize();
    assert!(idx.hover(Pt { x: 15, y: 5 }).is_none());
}

#[test]
fn overlapping_hitboxes_hover_the_first_registered() {
    let mut idx = SpatialIndex::new();
    idx.add(PathEntity::Edge(1), rect(0, 0, 10, 10), 1);
    idx.add(PathEntity::Edge(2), rect(5, 5, 15, 15), 2);
    idx.finalize();
    let hit = idx.hover(Pt { x: 7, y: 7 }).unwrap();
    assert_eq!(hit.id, PathEntity::Edge(1));
}

#[test]
fn absent_identifier_counts_as_zero() {
    let t = FrequencyTable::from_entries(vec![(7, 5), (9, 0)]);
    assert_eq!(t.count(7), 5);
    assert_eq!(t.count(9), 0);
    assert_eq!(t.count(1000), 0);
    assert_eq!(FrequencyTable::new().count(7), 0);
}

#[test]
fn repeated_identifier_keeps_its_first_count() {
    let t = FrequencyTable::from_entries(vec![(3, 8), (3, 1), (4, 2)]);
    assert_eq!(t.count(3), 8);
    assert_eq!(t.count(4), 2);
    assert_eq!(t.len(), 2);
    assert_eq!(t.entry(0), (3, 8));
    assert_eq!(t.entry(1), (4, 2));
}

#[test]
fn heatmap_ranks_against_the_class_maximum() {
    let edges = FrequencyTable::from_entries(vec![(1, 5), (2, 10), (3, 0)]);
    let nodes = FrequencyTable::new();
    let h = build_heatmap(&edges, &nodes, 10);
    assert_eq!(edge_slot_of(&h, 1), Some(4));
    assert_eq!(edge_slot_of(&h, 2), Some(9));
    assert_eq!(edge_slot_of(&h, 3), Some(0));
    assert_eq!(h.node_slot_count(), 0);
}

#[test]
fn all_zero_counts_rank_in_the_lowest_slot() {
    let edges = FrequencyTable::from_entries(vec![(1, 0), (2, 0)]);
    let h = build_heatmap(&edges, &FrequencyTable::new(), 8);
    assert_eq!(edge_slot_of(&h, 1), Some(0));
    assert_eq!(edge_slot_of(&h, 2), Some(0));
}

#[test]
fn equal_counts_may_rank_differently_across_classes() {
    let edges = FrequencyTable::from_entries(vec![(1, 5), (2, 10)]);
    let nodes = FrequencyTable::from_entries(vec![(1, 5)]);
    let h = build_heatmap(&edges, &nodes, 10);
    // An edge with count 5 and a node with count 5: different class maxima,
    // different slots.
    assert_eq!(edge_slot_of(&h, 1), Some(4));
    assert_eq!(node_slot_of(&h, 1), Some(9));
    assert_ne!(edge_slot_of(&h, 1), node_slot_of(&h, 1));
}

#[test]
fn changing_node_counts_never_changes_edge_slots() {
    let edges = FrequencyTable::from_entries(vec![(1, 3), (2, 7), (5, 1)]);
    let nodes_a = FrequencyTable::from_entries(vec![(1, 100), (9, 2)]);
    let nodes_b = FrequencyTable::from_entries(vec![(4, 1)]);
    let h_a = build_heatmap(&edges, &nodes_a, 6);
    let h_b = build_heatmap(&edges, &nodes_b, 6);
    assert_eq!(h_a.edge_slot_count(), h_b.edge_slot_count());
    for i in 0..h_a.edge_slot_count() {
        assert_eq!(h_a.edge_slot(i), h_b.edge_slot(i));
    }
}
