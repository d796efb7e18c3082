//! The interactive browser screen: the navigation controller, the spatial
//! hover index and the two overlays composed behind one event/draw surface.
//!
//! The host UI forwards discrete actions and pointer positions here and
//! draws exactly the layers the render plan names; the browser enforces
//! every guard itself.

use vstd::prelude::*;
use crate::geometry::{Pt, Rect};
use crate::nav::{spec_initial, spec_next, spec_prev, spec_toggle, Mode, NavState,
    NavigationController};
use crate::overlay::{build_heatmap, build_single_path, overlay_for, spec_heat, HeatmapOverlay,
    PathOverlay};
use crate::path_set::{PathEntity, PathSet};
use crate::spatial::{spec_hover, SpatialIndex, SpatialObject};

verus! {

/// A discrete UI action routed to the browser.
#[derive(Clone, Copy, PartialEq, Eq, Structural, Debug)]
pub enum Action {
    /// Step to the previous path.
    Prev,
    /// Step to the next path.
    Next,
    /// Flip between the single-path and heatmap layers.
    ToggleHeatmap,
    /// Leave the browser and return control to the caller.
    Exit,
}

/// What an action leads to: the browser keeps running, or control returns
/// to the caller together with the region's identifying context.
#[derive(Clone, Copy, PartialEq, Eq, Structural, Debug)]
pub enum Transition {
    Keep,
    Exit(u64),
}

/// Which layers the host draws this frame. The fixed decoration layers
/// (region fade, filter markers) are the host's own and always drawn.
#[derive(Clone, Copy, PartialEq, Eq, Structural, Debug)]
pub struct RenderPlan {
    /// Draw the aggregate heatmap overlay.
    pub draw_heatmap: bool,
    /// Draw the spatial index: base geometry, hover highlight, tooltip.
    pub draw_spatial: bool,
    /// Draw the single-path overlay.
    pub draw_path: bool,
    /// Show the explanatory "no paths" message instead of any overlay.
    pub show_empty_message: bool,
}

/// The browser screen's whole state for one session.
pub struct BrowserView {
    region: u64,
    path_set: PathSet,
    nav: NavigationController,
    index: SpatialIndex,
    heatmap: HeatmapOverlay,
    current: PathOverlay,
}

impl BrowserView {
    /// The identifying context handed back to the caller on exit.
    pub closed spec fn spec_region(&self) -> u64 {
        self.region
    }

    pub closed spec fn spec_path_set(&self) -> PathSet {
        self.path_set
    }

    pub closed spec fn spec_nav(&self) -> NavigationController {
        self.nav
    }

    pub closed spec fn spec_index(&self) -> SpatialIndex {
        self.index
    }

    pub closed spec fn spec_heatmap(&self) -> HeatmapOverlay {
        self.heatmap
    }

    /// The single-path overlay memoized on the current cursor.
    pub closed spec fn spec_current(&self) -> PathOverlay {
        self.current
    }

    pub open spec fn wf(&self) -> bool {
        &&& self.spec_path_set().wf()
        &&& self.spec_nav().wf()
        &&& self.spec_nav().spec_total() == self.spec_path_set().paths@.len()
        &&& (self.spec_nav()@ matches NavState::Browsing { cursor, .. } ==> overlay_for(
            self.spec_current(),
            self.spec_path_set().paths@[cursor as int],
        ))
        &&& (self.spec_nav()@ is Empty ==> self.spec_current().drawing is None)
        &&& self.spec_index().spec_ready()
        &&& (forall|i: int|
            0 <= i < self.spec_index().spec_objects().len()
                ==> (#[trigger] self.spec_index().spec_objects()[i]).tooltip_count
                == self.spec_path_set().spec_count_for(self.spec_index().spec_objects()[i].id))
        &&& self.spec_heatmap().spec_palette_len() >= 1
        &&& self.spec_heatmap().spec_edge_slots() == spec_heat(
            self.spec_path_set().by_edge.spec_entries(),
            self.spec_heatmap().spec_palette_len(),
        )
        &&& self.spec_heatmap().spec_node_slots() == spec_heat(
            self.spec_path_set().by_node.spec_entries(),
            self.spec_heatmap().spec_palette_len(),
        )
    }

    /// Compose one browser screen: register every interior entity with its
    /// hitbox and its tooltip count, build the heatmap once, and start the
    /// navigation at its initial state, with the first path's overlay
    /// already built when there is one.
    pub fn new(
        region: u64,
        path_set: PathSet,
        entities: &Vec<(PathEntity, Rect)>,
        palette_len: u64,
    ) -> (b: BrowserView)
        requires
            path_set.wf(),
            palette_len >= 1,
        ensures
            b.wf(),
            b.spec_region() == region,
            b.spec_path_set() == path_set,
            b.spec_nav()@ == spec_initial(path_set.paths@.len() as nat),
            b.spec_heatmap().spec_palette_len() == palette_len,
            b.spec_index().spec_objects().len() == entities@.len(),
            forall|i: int|
                0 <= i < entities@.len() ==> {
                    let o = #[trigger] b.spec_index().spec_objects()[i];
                    o.id == entities@[i].0 && o.hitbox == entities@[i].1 && o.tooltip_count
                        == path_set.spec_count_for(entities@[i].0)
                },
    {
        let mut index = SpatialIndex::new();
        let mut i: usize = 0;
        while i < entities.len()
            invariant
                i <= entities@.len(),
                !index.spec_ready(),
                index.spec_objects().len() == i,
                forall|j: int|
                    0 <= j < i ==> {
                        let o = #[trigger] index.spec_objects()[j];
                        o.id == entities@[j].0 && o.hitbox == entities@[j].1 && o.tooltip_count
                            == path_set.spec_count_for(entities@[j].0)
                    },
            decreases entities@.len() - i,
        {
            let (id, hitbox) = entities[i];
            let tooltip_count = path_set.count_for(id);
            index.add(id, hitbox, tooltip_count);
            i += 1;
        }
        index.finalize();
        let heatmap = build_heatmap(&path_set.by_edge, &path_set.by_node, palette_len);
        let nav = NavigationController::new(path_set.paths.len());
        let current = if path_set.paths.len() > 0 {
            build_single_path(&path_set.paths[0])
        } else {
            PathOverlay::empty()
        };
        BrowserView { region, path_set, nav, index, heatmap, current }
    }

    /// Route one discrete action. Out-of-range steps are no-ops; the
    /// single-path overlay is rebuilt exactly when the cursor moved; the
    /// exit action hands the region context back and touches nothing.
    pub fn handle(&mut self, action: Action) -> (t: Transition)
        requires
            old(self).wf(),
        ensures
            final(self).wf(),
            final(self).spec_region() == old(self).spec_region(),
            final(self).spec_path_set() == old(self).spec_path_set(),
            final(self).spec_index() == old(self).spec_index(),
            final(self).spec_heatmap() == old(self).spec_heatmap(),
            final(self).spec_nav().spec_total() == old(self).spec_nav().spec_total(),
            final(self).spec_nav()@ == (match action {
                Action::Prev => spec_prev(old(self).spec_nav()@, old(self).spec_nav().spec_total()),
                Action::Next => spec_next(old(self).spec_nav()@, old(self).spec_nav().spec_total()),
                Action::ToggleHeatmap => spec_toggle(old(self).spec_nav()@),
                Action::Exit => old(self).spec_nav()@,
            }),
            t == (if action is Exit {
                Transition::Exit(old(self).spec_region())
            } else {
                Transition::Keep
            }),
            final(self).spec_nav()@ == old(self).spec_nav()@ ==> final(self).spec_current()
                == old(self).spec_current(),
    {
        match action {
            Action::Prev => {
                let moved = self.nav.prev();
                if moved {
                    self.rebuild_current();
                }
                Transition::Keep
            },
            Action::Next => {
                let moved = self.nav.next();
                if moved {
                    self.rebuild_current();
                }
                Transition::Keep
            },
            Action::ToggleHeatmap => {
                self.nav.toggle_heatmap();
                Transition::Keep
            },
            Action::Exit => Transition::Exit(self.region),
        }
    }

    /// Rebuild the single-path overlay from the path at the cursor: the
    /// explicit recompute that follows every cursor change.
    fn rebuild_current(&mut self)
        requires
            old(self).spec_path_set().wf(),
            old(self).spec_nav().wf(),
            old(self).spec_nav().spec_total() == old(self).spec_path_set().paths@.len(),
            old(self).spec_nav()@ is Browsing,
        ensures
            final(self).spec_region() == old(self).spec_region(),
            final(self).spec_path_set() == old(self).spec_path_set(),
            final(self).spec_nav() == old(self).spec_nav(),
            final(self).spec_index() == old(self).spec_index(),
            final(self).spec_heatmap() == old(self).spec_heatmap(),
            overlay_for(
                final(self).spec_current(),
                old(self).spec_path_set().paths@[old(self).spec_nav()@->cursor as int],
            ),
    {
        let s = self.nav.state();
        match s {
            NavState::Browsing { cursor, .. } => {
                let ov = build_single_path(&self.path_set.paths[cursor]);
                self.current = ov;
            },
            NavState::Empty => {},
        }
    }

    /// Which layers to draw for the active mode: the heatmap plus the
    /// hoverable spatial index, or the single-path overlay alone, or only
    /// the explanatory message when there are no paths.
    pub fn render_plan(&self) -> (r: RenderPlan)
        ensures
            r.show_empty_message == (self@ is Empty),
            r.draw_heatmap == (self@ matches NavState::Browsing { mode: Mode::Heatmap, .. }),
            r.draw_spatial == r.draw_heatmap,
            r.draw_path == (self@ matches NavState::Browsing { mode: Mode::SinglePath, .. }),
    {
        match self.nav.state() {
            NavState::Empty => RenderPlan {
                draw_heatmap: false,
                draw_spatial: false,
                draw_path: false,
                show_empty_message: true,
            },
            NavState::Browsing { mode: Mode::Heatmap, .. } => RenderPlan {
                draw_heatmap: true,
                draw_spatial: true,
                draw_path: false,
                show_empty_message: false,
            },
            NavState::Browsing { mode: Mode::SinglePath, .. } => RenderPlan {
                draw_heatmap: false,
                draw_spatial: false,
                draw_path: true,
                show_empty_message: false,
            },
        }
    }

    /// Hit-test the pointer against the interior entities; recomputed per
    /// frame whatever the mode, never stored.
    pub fn hover(&self, p: Pt) -> (r: Option<SpatialObject>)
        requires
            self.wf(),
        ensures
            r == spec_hover(self.spec_index().spec_objects(), p),
            r matches Some(o) ==> o.tooltip_count == self.spec_path_set().spec_count_for(o.id),
    {
        let r = self.index.hover(p);
        proof {
            if r is Some {
                crate::spatial::lemma_hit_index_characterizes(
                    self.spec_index().spec_objects(),
                    p,
                );
            }
        }
        r
    }

    /// The navigation state the host renders its controls from.
    pub fn nav(&self) -> (n: &NavigationController)
        ensures
            n == self.spec_nav(),
    {
        &self.nav
    }

    pub fn path_set(&self) -> (ps: &PathSet)
        ensures
            ps == self.spec_path_set(),
    {
        &self.path_set
    }

    pub fn heatmap(&self) -> (h: &HeatmapOverlay)
        ensures
            h == self.spec_heatmap(),
    {
        &self.heatmap
    }

    /// The single-path overlay for the current cursor.
    pub fn current_overlay(&self) -> (ov: &PathOverlay)
        ensures
            ov == self.spec_current(),
    {
        &self.current
    }

    pub fn region(&self) -> (r: u64)
        ensures
            r == self.spec_region(),
    {
        self.region
    }
}

impl View for BrowserView {
    type V = NavState;

    open spec fn view(&self) -> NavState {
        self.spec_nav()@
    }
}

} // verus!
