//! An interactive browser over a precomputed set of alternate paths through a
//! bounded region: step through the paths one at a time as highlighted
//! polylines, or view an aggregate per-entity traversal-frequency heatmap,
//! with hover tooltips reporting exact counts.
//!
//! The library owns the navigation state machine, the spatial hover index,
//! and the construction of both renderable overlays. Path discovery, map
//! geometry and the widget toolkit are external collaborators: they hand in
//! plain values (entity identifiers, integer coordinates, counts) and draw
//! what the library hands back.

pub mod browser;
pub mod freq;
pub mod geometry;
pub mod nav;
pub mod overlay;
pub mod path_set;
pub mod spatial;

pub use browser::{Action, BrowserView, RenderPlan, Transition};
pub use freq::FrequencyTable;
pub use geometry::{Polyline, Pt, Rect};
pub use nav::{Mode, NavState, NavigationController};
pub use overlay::{HeatmapOverlay, PathDrawing, PathOverlay};
pub use path_set::{Path, PathEntity, PathSet};
pub use spatial::{SpatialIndex, SpatialObject};
