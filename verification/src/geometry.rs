//! Plain integer geometry for the region's bounded coordinate space:
//! points, rectangular hitboxes and the polylines that paths resolve to.

use vstd::prelude::*;

verus! {

/// A point in the region's coordinate space, in integer region-local units.
#[derive(Clone, Copy, PartialEq, Eq, Structural, Debug)]
pub struct Pt {
    pub x: i64,
    pub y: i64,
}

/// An axis-aligned rectangle: an entity's hitbox in region-local units.
#[derive(Clone, Copy, PartialEq, Eq, Structural, Debug)]
pub struct Rect {
    pub min_x: i64,
    pub min_y: i64,
    pub max_x: i64,
    pub max_y: i64,
}

impl Rect {
    /// A rectangle is well formed when its corners are ordered.
    pub open spec fn wf(self) -> bool {
        self.min_x <= self.max_x && self.min_y <= self.max_y
    }

    /// Whether a point lies inside this rectangle (bounds inclusive).
    pub open spec fn spec_contains(self, p: Pt) -> bool {
        self.min_x <= p.x <= self.max_x && self.min_y <= p.y <= self.max_y
    }

    /// Hit-test one point against this rectangle.
    pub fn contains(&self, p: Pt) -> (r: bool)
        ensures
            r == self.spec_contains(p),
    {
        self.min_x <= p.x && p.x <= self.max_x && self.min_y <= p.y && p.y <= self.max_y
    }
}

/// A continuous polyline: the renderable geometry one path resolves to.
/// A polyline always has at least two points, so a first and a last point
/// (the start and goal of the traced path) exist.
#[derive(Debug)]
pub struct Polyline {
    pts: Vec<Pt>,
}

impl View for Polyline {
    type V = Seq<Pt>;

    closed spec fn view(&self) -> Seq<Pt> {
        self.pts@
    }
}

impl Polyline {
    pub open spec fn wf(self) -> bool {
        self@.len() >= 2
    }

    /// Build a polyline from its points; fewer than two points is not a
    /// polyline, so the result is `None` there, and only there.
    pub fn new(pts: Vec<Pt>) -> (r: Option<Polyline>)
        ensures
            r is Some <==> pts@.len() >= 2,
            r matches Some(pl) ==> pl@ == pts@ && pl.wf(),
    {
        if pts.len() >= 2 {
            Some(Polyline { pts })
        } else {
            None
        }
    }

    pub fn len(&self) -> (n: usize)
        ensures
            n == self@.len(),
    {
        self.pts.len()
    }

    /// The point at a position along the polyline.
    pub fn pt(&self, i: usize) -> (p: Pt)
        requires
            i < self@.len(),
        ensures
            p == self@[i as int],
    {
        self.pts[i]
    }

    /// A copy of this polyline, point for point.
    pub fn duplicate(&self) -> (r: Polyline)
        ensures
            r@ == self@,
    {
        let mut pts: Vec<Pt> = Vec::new();
        let mut i: usize = 0;
        while i < self.pts.len()
            invariant
                i <= self.pts@.len(),
                pts@ == self.pts@.take(i as int),
            decreases self.pts@.len() - i,
        {
            pts.push(self.pts[i]);
            proof {
                assert(pts@ =~= self.pts@.take(i + 1));
            }
            i += 1;
        }
        proof {
            assert(self.pts@.take(self.pts@.len() as int) =~= self.pts@);
        }
        Polyline { pts }
    }

    /// The polyline's first point: where the traced path starts.
    pub fn first_pt(&self) -> (p: Pt)
        requires
            self.wf(),
        ensures
            p == self@[0],
    {
        self.pts[0]
    }

    /// The polyline's last point: where the traced path ends.
    pub fn last_pt(&self) -> (p: Pt)
        requires
            self.wf(),
        ensures
            p == self@.last(),
    {
        self.pts[self.pts.len() - 1]
    }
}

} // verus!
