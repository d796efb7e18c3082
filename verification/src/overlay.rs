//! The two renderable layers derived from the path set: the single
//! highlighted path at the current cursor, and the static aggregate
//! heatmap over all entities.
//!
//! Both overlays are plain data; once built they are drawn with no further
//! computation. The single-path overlay is rebuilt only on a cursor
//! change, the heatmap once at construction.

use vstd::prelude::*;
use crate::freq::FrequencyTable;
use crate::geometry::{Polyline, Pt};
use crate::path_set::Path;

verus! {

/// Reference lane width, in region-local units.
pub const LANE_WIDTH: i64 = 250;

/// The path arrow is this many reference lane widths thick.
pub const ARROW_WIDTH_FACTOR: i64 = 3;

/// Arrow opacity (percent) for the zoomed-out draw pass.
pub const UNZOOMED_ALPHA_PCT: u8 = 80;

/// Arrow opacity (percent) for the zoomed-in draw pass.
pub const ZOOMED_ALPHA_PCT: u8 = 50;

/// Start/goal marker scale (tenths) for the zoomed-out draw pass.
pub const UNZOOMED_MARKER_SCALE_TENTHS: u8 = 20;

/// Start/goal marker scale (tenths) for the zoomed-in draw pass.
pub const ZOOMED_MARKER_SCALE_TENTHS: u8 = 5;

/// The drawable content of a path that resolved to geometry: one
/// directional arrow along the full polyline plus a start and a goal
/// marker, each rendered in two zoom-dependent passes.
#[derive(Debug)]
pub struct PathDrawing {
    /// The spine of the arrow-shaped polygon: the traced polyline.
    pub spine: Polyline,
    /// Thickness of the arrow polygon.
    pub width: i64,
    /// Where the start marker is drawn: the polyline's first point.
    pub start_marker: Pt,
    /// Where the goal marker is drawn: the polyline's last point.
    pub goal_marker: Pt,
    /// Arrow opacity (percent) in the zoomed-out / zoomed-in pass.
    pub unzoomed_alpha_pct: u8,
    pub zoomed_alpha_pct: u8,
    /// Marker scale (tenths) in the zoomed-out / zoomed-in pass.
    pub unzoomed_marker_scale_tenths: u8,
    pub zoomed_marker_scale_tenths: u8,
}

/// The single-path layer for one cursor position: empty when the path has
/// no geometry (nothing to draw there — a valid state, not a fault).
#[derive(Debug)]
pub struct PathOverlay {
    pub drawing: Option<PathDrawing>,
}

/// What the single-path layer must hold for a given path: empty exactly
/// when the path has no geometry, else the arrow and markers derived from
/// its polyline with the fixed pass parameters.
pub open spec fn overlay_for(ov: PathOverlay, path: Path) -> bool {
    match path.geometry {
        None => ov.drawing is None,
        Some(pl) => ov.drawing matches Some(d) && {
            &&& d.spine@ == pl@
            &&& d.width == ARROW_WIDTH_FACTOR * LANE_WIDTH
            &&& d.start_marker == pl@[0]
            &&& d.goal_marker == pl@.last()
            &&& d.unzoomed_alpha_pct == UNZOOMED_ALPHA_PCT
            &&& d.zoomed_alpha_pct == ZOOMED_ALPHA_PCT
            &&& d.unzoomed_marker_scale_tenths == UNZOOMED_MARKER_SCALE_TENTHS
            &&& d.zoomed_marker_scale_tenths == ZOOMED_MARKER_SCALE_TENTHS
        },
    }
}

impl PathOverlay {
    /// The overlay that draws nothing.
    pub fn empty() -> (ov: PathOverlay)
        ensures
            ov.drawing is None,
    {
        PathOverlay { drawing: None }
    }

    pub fn is_empty(&self) -> (r: bool)
        ensures
            r == (self.drawing is None),
    {
        self.drawing.is_none()
    }
}

/// Build the single-path layer for one path. A degenerate path (no
/// geometry) yields the empty overlay rather than an error.
pub fn build_single_path(path: &Path) -> (ov: PathOverlay)
    requires
        path.wf(),
    ensures
        overlay_for(ov, *path),
{
    match &path.geometry {
        None => PathOverlay { drawing: None },
        Some(pl) => {
            let spine = pl.duplicate();
            PathOverlay {
                drawing: Some(
                    PathDrawing {
                        start_marker: spine.first_pt(),
                        goal_marker: spine.last_pt(),
                        spine,
                        width: ARROW_WIDTH_FACTOR * LANE_WIDTH,
                        unzoomed_alpha_pct: UNZOOMED_ALPHA_PCT,
                        zoomed_alpha_pct: ZOOMED_ALPHA_PCT,
                        unzoomed_marker_scale_tenths: UNZOOMED_MARKER_SCALE_TENTHS,
                        zoomed_marker_scale_tenths: ZOOMED_MARKER_SCALE_TENTHS,
                    },
                ),
            }
        },
    }
}

/// The greatest count among the entries.
pub open spec fn spec_max_count(s: Seq<(u64, u64)>) -> u64
    decreases s.len(),
{
    if s.len() == 0 {
        0
    } else if s.last().1 > spec_max_count(s.drop_last()) {
        s.last().1
    } else {
        spec_max_count(s.drop_last())
    }
}

/// Every entry's count is bounded by the maximum.
pub proof fn lemma_max_count_bounds(s: Seq<(u64, u64)>, i: int)
    requires
        0 <= i < s.len(),
    ensures
        s[i].1 <= spec_max_count(s),
    decreases s.len(),
{
    if i < s.len() - 1 {
        lemma_max_count_bounds(s.drop_last(), i);
    }
}

/// The palette slot for one count: counts are ranked linearly against the
/// class maximum over a palette of `k` colors, from "good" (low) at slot 0
/// to "bad" (high) at slot `k - 1`.
pub open spec fn spec_bucket(count: u64, max: u64, k: u64) -> int {
    if max == 0 {
        0
    } else {
        (count * (k - 1)) / (max as int)
    }
}

/// Law: ranking is monotone — a higher count never maps to a better
/// (lower) palette slot.
pub proof fn lemma_bucket_monotone(c1: u64, c2: u64, max: u64, k: u64)
    requires
        c1 <= c2,
        k >= 1,
    ensures
        spec_bucket(c1, max, k) <= spec_bucket(c2, max, k),
{
    if max != 0 {
        assert((c1 * (k - 1)) <= (c2 * (k - 1))) by (nonlinear_arith)
            requires c1 <= c2, k >= 1;
        vstd::arithmetic::div_mod::lemma_div_is_ordered(
            c1 * (k - 1),
            c2 * (k - 1),
            max as int,
        );
    }
}

/// A bucket never reaches past the palette's last slot.
pub proof fn lemma_bucket_in_palette(count: u64, max: u64, k: u64)
    requires
        count <= max,
        k >= 1,
    ensures
        0 <= spec_bucket(count, max, k) < k,
{
    if max != 0 {
        assert((count * (k - 1)) >= 0) by (nonlinear_arith)
            requires k >= 1;
        vstd::arithmetic::div_mod::lemma_div_pos_is_pos(count * (k - 1), max as int);
        assert((count * (k - 1)) <= ((k - 1) * max)) by (nonlinear_arith)
            requires count <= max, k >= 1;
        vstd::arithmetic::div_mod::lemma_div_is_ordered(
            count * (k - 1),
            (k - 1) * max,
            max as int,
        );
        vstd::arithmetic::div_mod::lemma_div_by_multiple(k - 1, max as int);
    }
}

/// The heat layer of one class: each recorded entity with its palette
/// slot, ranked against that class's own maximum alone.
pub open spec fn spec_heat(s: Seq<(u64, u64)>, k: u64) -> Seq<(u64, u64)> {
    s.map_values(|e: (u64, u64)| (e.0, spec_bucket(e.1, spec_max_count(s), k) as u64))
}

/// The static aggregate layer: every recorded edge entity and every
/// recorded node entity with its palette slot. The two classes are ranked
/// independently — their counts are not commensurable, so an edge and a
/// node with equal counts may land on different slots.
#[derive(Debug)]
pub struct HeatmapOverlay {
    edge_slots: Vec<(u64, u64)>,
    node_slots: Vec<(u64, u64)>,
    palette_len: u64,
}

impl HeatmapOverlay {
    pub closed spec fn spec_edge_slots(&self) -> Seq<(u64, u64)> {
        self.edge_slots@
    }

    pub closed spec fn spec_node_slots(&self) -> Seq<(u64, u64)> {
        self.node_slots@
    }

    pub closed spec fn spec_palette_len(&self) -> u64 {
        self.palette_len
    }

    pub fn edge_slot_count(&self) -> (n: usize)
        ensures
            n == self.spec_edge_slots().len(),
    {
        self.edge_slots.len()
    }

    pub fn node_slot_count(&self) -> (n: usize)
        ensures
            n == self.spec_node_slots().len(),
    {
        self.node_slots.len()
    }

    /// The (entity identifier, palette slot) pair at one position of the
    /// edge layer.
    pub fn edge_slot(&self, i: usize) -> (e: (u64, u64))
        requires
            i < self.spec_edge_slots().len(),
        ensures
            e == self.spec_edge_slots()[i as int],
    {
        self.edge_slots[i]
    }

    /// The (entity identifier, palette slot) pair at one position of the
    /// node layer.
    pub fn node_slot(&self, i: usize) -> (e: (u64, u64))
        requires
            i < self.spec_node_slots().len(),
        ensures
            e == self.spec_node_slots()[i as int],
    {
        self.node_slots[i]
    }
}

/// Law: the edge layer is a function of the edge table alone — two
/// heatmaps built from the same edge table carry identical edge layers,
/// whatever their node tables hold; and symmetrically for the node layer.
pub proof fn lemma_classes_ranked_independently(
    h1: HeatmapOverlay,
    h2: HeatmapOverlay,
    edges: Seq<(u64, u64)>,
    nodes1: Seq<(u64, u64)>,
    nodes2: Seq<(u64, u64)>,
    k: u64,
)
    requires
        h1.spec_edge_slots() == spec_heat(edges, k),
        h1.spec_node_slots() == spec_heat(nodes1, k),
        h2.spec_edge_slots() == spec_heat(edges, k),
        h2.spec_node_slots() == spec_heat(nodes2, k),
    ensures
        h1.spec_edge_slots() == h2.spec_edge_slots(),
        nodes1 == nodes2 ==> h1.spec_node_slots() == h2.spec_node_slots(),
{
}

/// Build the aggregate heatmap from the two frequency tables and the
/// palette size. Built once: the tables never change afterwards.
pub fn build_heatmap(by_edge: &FrequencyTable, by_node: &FrequencyTable, palette_len: u64) -> (h:
    HeatmapOverlay)
    requires
        palette_len >= 1,
    ensures
        h.spec_edge_slots() == spec_heat(by_edge.spec_entries(), palette_len),
        h.spec_node_slots() == spec_heat(by_node.spec_entries(), palette_len),
        h.spec_palette_len() == palette_len,
{
    HeatmapOverlay {
        edge_slots: heat_of_table(by_edge, palette_len),
        node_slots: heat_of_table(by_node, palette_len),
        palette_len,
    }
}

/// Rank one table's entries against that table's own maximum.
fn heat_of_table(table: &FrequencyTable, k: u64) -> (out: Vec<(u64, u64)>)
    requires
        k >= 1,
    ensures
        out@ == spec_heat(table.spec_entries(), k),
{
    let ghost s = table.spec_entries();
    let n = table.len();
    let mut max: u64 = 0;
    let mut i: usize = 0;
    while i < n
        invariant
            n == s.len(),
            i <= n,
            s == table.spec_entries(),
            max == spec_max_count(s.take(i as int)),
        decreases n - i,
    {
        let e = table.entry(i);
        proof {
            assert(s.take(i + 1).drop_last() =~= s.take(i as int));
            assert(s.take(i + 1).last() == s[i as int]);
        }
        if e.1 > max {
            max = e.1;
        }
        i += 1;
    }
    proof {
        assert(s.take(n as int) =~= s);
    }
    let mut out: Vec<(u64, u64)> = Vec::new();
    let mut i: usize = 0;
    while i < n
        invariant
            n == s.len(),
            i <= n,
            s == table.spec_entries(),
            k >= 1,
            max == spec_max_count(s),
            out@ == spec_heat(s, k).take(i as int),
        decreases n - i,
    {
        let e = table.entry(i);
        proof {
            lemma_max_count_bounds(s, i as int);
            lemma_bucket_in_palette(e.1, max, k);
        }
        let slot = bucket(e.1, max, k);
        out.push((e.0, slot));
        proof {
            assert(spec_heat(s, k)[i as int] == (e.0, spec_bucket(e.1, max, k) as u64));
            assert(out@ =~= spec_heat(s, k).take(i + 1));
        }
        i += 1;
    }
    proof {
        assert(spec_heat(s, k).take(n as int) =~= spec_heat(s, k));
    }
    out
}

/// One count's palette slot, computed without overflow.
fn bucket(count: u64, max: u64, k: u64) -> (b: u64)
    requires
        count <= max,
        k >= 1,
    ensures
        b as int == spec_bucket(count, max, k),
        b < k,
{
    proof {
        lemma_bucket_in_palette(count, max, k);
    }
    if max == 0 {
        0
    } else {
        proof {
            assert((count as int) * ((k as int) - 1) <= (u64::MAX as int) * (u64::MAX as int))
                by (nonlinear_arith)
                requires
                    count as int <= u64::MAX as int,
                    0 <= (k as int) - 1 <= u64::MAX as int,
            ;
        }
        let wide = (count as u128) * ((k - 1) as u128);
        (wide / (max as u128)) as u64
    }
}

} // verus!
