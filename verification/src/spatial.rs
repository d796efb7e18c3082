//! The spatial hover index: hit-testing one pointer coordinate against the
//! hitboxes of the region's interior entities, two disjoint classes in one
//! bounded coordinate space.
//!
//! The index is built once (`add` per entity, then `finalize`) and never
//! changes afterwards; hover state is derived per frame from the pointer
//! position, never stored.

use vstd::prelude::*;
use crate::geometry::{Pt, Rect};
use crate::path_set::PathEntity;

verus! {

/// One registered entity: its identifier, its hitbox, and the traversal
/// count its tooltip reports.
#[derive(Clone, Copy, PartialEq, Eq, Structural, Debug)]
pub struct SpatialObject {
    pub id: PathEntity,
    pub hitbox: Rect,
    pub tooltip_count: u64,
}

/// The position of the first registered object whose hitbox contains the
/// pointer, if any: earlier insertion is topmost. Entities are spatially
/// disjoint in the source region, so ties are not expected; insertion
/// order decides them deterministically anyway.
pub open spec fn spec_hit_index(s: Seq<SpatialObject>, p: Pt) -> Option<int>
    decreases s.len(),
{
    if s.len() == 0 {
        None
    } else if s[0].hitbox.spec_contains(p) {
        Some(0)
    } else {
        match spec_hit_index(s.drop_first(), p) {
            None => None,
            Some(i) => Some(i + 1),
        }
    }
}

/// The hovered object itself, if any hitbox contains the pointer.
pub open spec fn spec_hover(s: Seq<SpatialObject>, p: Pt) -> Option<SpatialObject> {
    match spec_hit_index(s, p) {
        None => None,
        Some(i) => Some(s[i]),
    }
}

/// What the hit index means: `None` exactly when no hitbox contains the
/// pointer, and `Some(i)` exactly for the first containing hitbox.
pub proof fn lemma_hit_index_characterizes(s: Seq<SpatialObject>, p: Pt)
    ensures
        match spec_hit_index(s, p) {
            None => forall|j: int|
                0 <= j < s.len() ==> !(#[trigger] s[j]).hitbox.spec_contains(p),
            Some(i) => 0 <= i < s.len() && s[i].hitbox.spec_contains(p) && (forall|j: int|
                0 <= j < i ==> !(#[trigger] s[j]).hitbox.spec_contains(p)),
        },
    decreases s.len(),
{
    if s.len() > 0 && !s[0].hitbox.spec_contains(p) {
        let t = s.drop_first();
        lemma_hit_index_characterizes(t, p);
        assert(forall|j: int| 0 <= j < t.len() ==> t[j] == s[j + 1]);
        match spec_hit_index(t, p) {
            None => {
                assert forall|j: int|
                    0 <= j < s.len() implies !(#[trigger] s[j]).hitbox.spec_contains(p) by {
                    if j > 0 {
                        assert(t[j - 1] == s[j]);
                    }
                }
            },
            Some(i) => {
                assert(spec_hit_index(s, p) == Some(i + 1));
                assert(s[i + 1] == t[i]);
                assert forall|j: int|
                    0 <= j < i + 1 implies !(#[trigger] s[j]).hitbox.spec_contains(p) by {
                    if j > 0 {
                        assert(t[j - 1] == s[j]);
                    }
                }
            },
        }
    }
}

/// Law: a pointer inside exactly one object's hitbox hovers exactly that
/// object, with the tooltip count it was registered with.
pub proof fn lemma_unique_hit_is_hovered(s: Seq<SpatialObject>, p: Pt, i: int)
    requires
        0 <= i < s.len(),
        s[i].hitbox.spec_contains(p),
        forall|j: int| 0 <= j < s.len() && j != i ==> !(#[trigger] s[j]).hitbox.spec_contains(p),
    ensures
        spec_hover(s, p) == Some(s[i]),
{
    lemma_hit_index_characterizes(s, p);
    let h = spec_hit_index(s, p);
    assert(h is Some);
    assert(h->0 == i);
}

/// Law: a pointer inside no hitbox hovers nothing.
pub proof fn lemma_no_hit_no_hover(s: Seq<SpatialObject>, p: Pt)
    requires
        forall|j: int| 0 <= j < s.len() ==> !(#[trigger] s[j]).hitbox.spec_contains(p),
    ensures
        spec_hover(s, p) is None,
{
    lemma_hit_index_characterizes(s, p);
    if spec_hit_index(s, p) is Some {
        assert(s[spec_hit_index(s, p)->0].hitbox.spec_contains(p));
    }
}

/// The hit-testing structure over the region's interior entities. Objects
/// are registered one by one, then the index is finalized; only a
/// finalized index answers hover queries.
pub struct SpatialIndex {
    objects: Vec<SpatialObject>,
    ready: bool,
}

impl SpatialIndex {
    /// The registered objects, in insertion order.
    pub closed spec fn spec_objects(&self) -> Seq<SpatialObject> {
        self.objects@
    }

    /// Whether `finalize` has run.
    pub closed spec fn spec_ready(&self) -> bool {
        self.ready
    }

    /// An empty index, not yet finalized.
    pub fn new() -> (idx: SpatialIndex)
        ensures
            idx.spec_objects() == Seq::<SpatialObject>::empty(),
            !idx.spec_ready(),
    {
        let idx = SpatialIndex { objects: Vec::new(), ready: false };
        proof {
            assert(idx.objects@ =~= Seq::<SpatialObject>::empty());
        }
        idx
    }

    /// Register one entity with its hitbox and tooltip count. Only an
    /// index still under construction accepts registrations.
    pub fn add(&mut self, id: PathEntity, hitbox: Rect, tooltip_count: u64)
        requires
            !old(self).spec_ready(),
        ensures
            !final(self).spec_ready(),
            final(self).spec_objects() == old(self).spec_objects().push(
                (SpatialObject { id, hitbox, tooltip_count }),
            ),
    {
        self.objects.push(SpatialObject { id, hitbox, tooltip_count });
    }

    /// Build the query structures; registration is over after this.
    pub fn finalize(&mut self)
        ensures
            final(self).spec_ready(),
            final(self).spec_objects() == old(self).spec_objects(),
    {
        self.ready = true;
    }

    pub fn len(&self) -> (n: usize)
        ensures
            n == self.spec_objects().len(),
    {
        self.objects.len()
    }

    pub fn object(&self, i: usize) -> (o: SpatialObject)
        requires
            i < self.spec_objects().len(),
        ensures
            o == self.spec_objects()[i as int],
    {
        self.objects[i]
    }

    /// Hit-test the pointer against every registered hitbox: the first
    /// containing object is hovered; no containing hitbox means no hover,
    /// a valid state rather than an error.
    pub fn hover(&self, p: Pt) -> (r: Option<SpatialObject>)
        requires
            self.spec_ready(),
        ensures
            r == spec_hover(self.spec_objects(), p),
    {
        let mut i: usize = 0;
        while i < self.objects.len()
            invariant
                i <= self.objects@.len(),
                forall|j: int|
                    0 <= j < i ==> !(#[trigger] self.objects@[j]).hitbox.spec_contains(p),
            decreases self.objects@.len() - i,
        {
            let o = self.objects[i];
            if o.hitbox.contains(p) {
                proof {
                    lemma_hit_index_characterizes(self.objects@, p);
                    match spec_hit_index(self.objects@, p) {
                        None => {
                            assert(self.objects@[i as int].hitbox.spec_contains(p));
                        },
                        Some(k) => {
                            assert(k == i as int);
                        },
                    }
                }
                return Some(o);
            }
            i += 1;
        }
        proof {
            lemma_no_hit_no_hover(self.objects@, p);
        }
        None
    }
}

} // verus!
