//! The immutable result of external path discovery: the ordered candidate
//! paths and the two per-class traversal-frequency tables.

use vstd::prelude::*;
use crate::freq::FrequencyTable;
use crate::geometry::Polyline;

verus! {

/// Identifies one spatial entity of the region's interior. The two classes
/// are disjoint: an edge-like entity (a road) and a node-like entity (an
/// intersection) never share an identifier space.
#[derive(Clone, Copy, PartialEq, Eq, Structural, PartialOrd, Ord, Hash, Debug)]
pub enum PathEntity {
    Edge(u64),
    Node(u64),
}

/// One candidate shortcut route: the ordered entities it traverses, and
/// the continuous polyline it resolved to, if it resolved at all. A path
/// with no geometry is a valid state, not an error: nothing is drawn for
/// it, and browsing past it stays fully functional.
#[derive(Debug)]
pub struct Path {
    pub steps: Vec<PathEntity>,
    pub geometry: Option<Polyline>,
}

impl Path {
    pub open spec fn wf(self) -> bool {
        self.geometry matches Some(pl) ==> pl.wf()
    }

    /// Whether this path resolved to renderable geometry.
    pub fn has_geometry(&self) -> (r: bool)
        ensures
            r == (self.geometry is Some),
    {
        self.geometry.is_some()
    }
}

/// How many of the paths traverse an entity.
pub open spec fn spec_traversal_count(paths: Seq<Path>, e: PathEntity) -> nat
    decreases paths.len(),
{
    if paths.len() == 0 {
        0
    } else {
        spec_traversal_count(paths.drop_last(), e) + (if paths.last().steps@.contains(e) {
            1nat
        } else {
            0nat
        })
    }
}

/// An entity on no path is traversed by none.
proof fn lemma_untraversed_count_is_zero(paths: Seq<Path>, e: PathEntity)
    requires
        forall|i: int| 0 <= i < paths.len() ==> !(#[trigger] paths[i]).steps@.contains(e),
    ensures
        spec_traversal_count(paths, e) == 0,
    decreases paths.len(),
{
    if paths.len() > 0 {
        lemma_untraversed_count_is_zero(paths.drop_last(), e);
    }
}

/// Everything the external discovery step hands over, owned for the whole
/// browsing session and never mutated.
pub struct PathSet {
    pub paths: Vec<Path>,
    pub by_edge: FrequencyTable,
    pub by_node: FrequencyTable,
}

impl PathSet {
    pub open spec fn wf(self) -> bool {
        &&& forall|i: int| 0 <= i < self.paths@.len() ==> (#[trigger] self.paths@[i]).wf()
        &&& self.by_edge.wf()
        &&& self.by_node.wf()
    }

    /// The traversal count the matching table holds for an entity; an
    /// entity absent from its table counts as zero.
    pub open spec fn spec_count_for(self, e: PathEntity) -> u64 {
        match e {
            PathEntity::Edge(id) => self.by_edge.spec_count(id),
            PathEntity::Node(id) => self.by_node.spec_count(id),
        }
    }

    /// How many candidate paths were discovered.
    pub fn len(&self) -> (n: usize)
        ensures
            n == self.paths@.len(),
    {
        self.paths.len()
    }

    /// Look up an entity's traversal count in the table for its class.
    pub fn count_for(&self, e: PathEntity) -> (c: u64)
        ensures
            c == self.spec_count_for(e),
    {
        match e {
            PathEntity::Edge(id) => self.by_edge.count(id),
            PathEntity::Node(id) => self.by_node.count(id),
        }
    }

    /// One entity's share of the discovery invariant: its recorded count
    /// covers the number of paths that traverse it.
    pub open spec fn entity_covered(self, e: PathEntity) -> bool {
        spec_traversal_count(self.paths@, e) <= self.spec_count_for(e)
    }

    /// The invariant external discovery promises of its result: every
    /// entity on any path has a recorded count at least the number of
    /// paths traversing it. An entity never traversed may be absent or
    /// recorded as zero; both are covered alike.
    pub open spec fn counts_cover_paths(self) -> bool {
        forall|e: PathEntity| self.entity_covered(e)
    }

    /// Check the discovery invariant over the whole path set.
    pub fn counts_cover(&self) -> (r: bool)
        ensures
            r == self.counts_cover_paths(),
    {
        let mut i: usize = 0;
        while i < self.paths.len()
            invariant
                i <= self.paths@.len(),
                forall|i2: int, j2: int|
                    0 <= i2 < i && 0 <= j2 < self.paths@[i2].steps@.len()
                        ==> self.entity_covered(#[trigger] self.paths@[i2].steps@[j2]),
            decreases self.paths@.len() - i,
        {
            let steps_len = self.paths[i].steps.len();
            let mut j: usize = 0;
            while j < steps_len
                invariant
                    i < self.paths@.len(),
                    steps_len == self.paths@[i as int].steps@.len(),
                    j <= steps_len,
                    forall|i2: int, j2: int|
                        0 <= i2 < i && 0 <= j2 < self.paths@[i2].steps@.len()
                            ==> self.entity_covered(#[trigger] self.paths@[i2].steps@[j2]),
                    forall|j2: int|
                        0 <= j2 < j ==> self.entity_covered(
                            #[trigger] self.paths@[i as int].steps@[j2],
                        ),
                decreases steps_len - j,
            {
                let e = self.paths[i].steps[j];
                let t = traversal_count(&self.paths, e);
                let c = self.count_for(e);
                if t as u64 > c {
                    proof {
                        assert(!self.entity_covered(e));
                    }
                    return false;
                }
                j += 1;
            }
            i += 1;
        }
        proof {
            assert forall|e: PathEntity| self.entity_covered(e) by {
                if exists|i2: int|
                    0 <= i2 < self.paths@.len() && (#[trigger] self.paths@[i2]).steps@.contains(
                        e,
                    ) {
                    let i2 = choose|i2: int|
                        0 <= i2 < self.paths@.len() && (#[trigger] self.paths@[i2]).steps@.contains(
                            e,
                        );
                    let j2 = choose|j2: int|
                        0 <= j2 < self.paths@[i2].steps@.len() && self.paths@[i2].steps@[j2] == e;
                    assert(self.entity_covered(self.paths@[i2].steps@[j2]));
                } else {
                    lemma_untraversed_count_is_zero(self.paths@, e);
                }
            }
        }
        true
    }
}

/// Whether a path's traversal sequence holds the entity.
fn steps_contain(p: &Path, e: PathEntity) -> (r: bool)
    ensures
        r == p.steps@.contains(e),
{
    let mut i: usize = 0;
    while i < p.steps.len()
        invariant
            i <= p.steps@.len(),
            forall|j: int| 0 <= j < i ==> p.steps@[j] != e,
        decreases p.steps@.len() - i,
    {
        if p.steps[i] == e {
            return true;
        }
        i += 1;
    }
    false
}

/// Count the paths whose traversal sequence holds the entity.
fn traversal_count(paths: &Vec<Path>, e: PathEntity) -> (n: usize)
    ensures
        n as nat == spec_traversal_count(paths@, e),
{
    let mut n: usize = 0;
    let mut i: usize = 0;
    while i < paths.len()
        invariant
            i <= paths@.len(),
            n <= i,
            n as nat == spec_traversal_count(paths@.take(i as int), e),
        decreases paths@.len() - i,
    {
        proof {
            assert(paths@.take(i + 1).drop_last() =~= paths@.take(i as int));
            assert(paths@.take(i + 1).last() == paths@[i as int]);
        }
        if steps_contain(&paths[i], e) {
            n += 1;
        }
        i += 1;
    }
    proof {
        assert(paths@.take(paths@.len() as int) =~= paths@);
    }
    n
}

} // verus!
