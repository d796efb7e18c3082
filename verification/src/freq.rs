//! Traversal-frequency tables: an immutable mapping from an entity
//! identifier to how many candidate paths traverse that entity.
//!
//! An identifier that was never recorded has count 0; a recorded count of 0
//! and an absent identifier behave identically under lookup.

use vstd::prelude::*;

verus! {

/// The count an entry list records for an identifier: the first entry
/// holding it, and zero when it is absent.
pub open spec fn lookup(s: Seq<(u64, u64)>, id: u64) -> u64
    decreases s.len(),
{
    if s.len() == 0 {
        0
    } else if s[0].0 == id {
        s[0].1
    } else {
        lookup(s.drop_first(), id)
    }
}

/// Whether an entry list records the identifier at all.
pub open spec fn has_key(s: Seq<(u64, u64)>, id: u64) -> bool {
    exists|j: int| 0 <= j < s.len() && s[j].0 == id
}

/// No identifier occurs in two entries.
pub open spec fn unique_keys(s: Seq<(u64, u64)>) -> bool {
    forall|i: int, j: int| 0 <= i < j < s.len() ==> s[i].0 != s[j].0
}

/// An entry list with repeated identifiers dropped: each identifier keeps
/// its first entry, in first-seen order.
pub open spec fn spec_dedup(s: Seq<(u64, u64)>) -> Seq<(u64, u64)>
    decreases s.len(),
{
    if s.len() == 0 {
        Seq::empty()
    } else if has_key(s.drop_last(), s.last().0) {
        spec_dedup(s.drop_last())
    } else {
        spec_dedup(s.drop_last()).push(s.last())
    }
}

/// The first matching entry decides the lookup.
pub proof fn lemma_lookup_first_match(s: Seq<(u64, u64)>, id: u64, i: int)
    requires
        0 <= i < s.len(),
        s[i].0 == id,
        forall|j: int| 0 <= j < i ==> s[j].0 != id,
    ensures
        lookup(s, id) == s[i].1,
    decreases i,
{
    if i > 0 {
        lemma_lookup_first_match(s.drop_first(), id, i - 1);
    }
}

/// An identifier recorded nowhere looks up as zero.
pub proof fn lemma_lookup_absent(s: Seq<(u64, u64)>, id: u64)
    requires
        !has_key(s, id),
    ensures
        lookup(s, id) == 0,
    decreases s.len(),
{
    if s.len() > 0 {
        assert(forall|j: int| 0 <= j < s.drop_first().len() ==> s.drop_first()[j] == s[j + 1]);
        lemma_lookup_absent(s.drop_first(), id);
    }
}

/// A table of per-entity traversal counts, immutable after construction.
/// Each identifier is recorded at most once.
pub struct FrequencyTable {
    entries: Vec<(u64, u64)>,
}

impl FrequencyTable {
    /// The recorded (identifier, count) entries, in first-seen order.
    pub closed spec fn spec_entries(&self) -> Seq<(u64, u64)> {
        self.entries@
    }

    /// The count this table holds for an identifier; absent means zero.
    pub open spec fn spec_count(&self, id: u64) -> u64 {
        lookup(self.spec_entries(), id)
    }

    pub open spec fn wf(&self) -> bool {
        unique_keys(self.spec_entries())
    }

    /// A table with no entries: every identifier counts as zero.
    pub fn new() -> (t: FrequencyTable)
        ensures
            t.wf(),
            t.spec_entries() == Seq::<(u64, u64)>::empty(),
            forall|id: u64| t.spec_count(id) == 0,
    {
        let t = FrequencyTable { entries: Vec::new() };
        proof {
            assert(t.entries@ =~= Seq::<(u64, u64)>::empty());
        }
        t
    }

    /// Build a table from raw (identifier, count) pairs as the external
    /// discovery step reports them. A repeated identifier keeps its first
    /// count, so lookup agrees with first-match lookup on the raw list.
    pub fn from_entries(raw: Vec<(u64, u64)>) -> (t: FrequencyTable)
        ensures
            t.wf(),
            t.spec_entries() == spec_dedup(raw@),
            forall|id: u64| t.spec_count(id) == lookup(raw@, id),
            forall|id: u64| has_key(t.spec_entries(), id) == has_key(raw@, id),
    {
        let mut entries: Vec<(u64, u64)> = Vec::new();
        let mut i: usize = 0;
        while i < raw.len()
            invariant
                i <= raw@.len(),
                unique_keys(entries@),
                entries@ == spec_dedup(raw@.take(i as int)),
                forall|j: int| 0 <= j < i ==> has_key(entries@, raw@[j].0),
                forall|k: int|
                    0 <= k < entries@.len() ==> (exists|j: int|
                        0 <= j < i && raw@[j].0 == #[trigger] entries@[k].0),
                forall|k: int|
                    0 <= k < entries@.len() ==> lookup(raw@, entries@[k].0) == entries@[k].1,
            decreases raw@.len() - i,
        {
            let e = raw[i];
            let ghost pre = entries@;
            let present = contains_key(&entries, e.0);
            if !present {
                proof {
                    assert forall|j: int| 0 <= j < i implies raw@[j].0 != e.0 by {
                        if raw@[j].0 == e.0 {
                            assert(has_key(pre, e.0));
                        }
                    }
                    lemma_lookup_first_match(raw@, e.0, i as int);
                }
                entries.push(e);
                proof {
                    assert(entries@[pre.len() as int] == e);
                    assert(has_key(entries@, e.0));
                }
            }
            proof {
                assert(raw@.take(i + 1).drop_last() =~= raw@.take(i as int));
                assert(raw@.take(i + 1).last() == e);
                assert(has_key(raw@.take(i as int), e.0) == present) by {
                    if present {
                        let k = choose|k: int| 0 <= k < pre.len() && pre[k].0 == e.0;
                        let j = choose|j: int| 0 <= j < i && raw@[j].0 == pre[k].0;
                        assert(raw@.take(i as int)[j].0 == e.0);
                    } else {
                        if has_key(raw@.take(i as int), e.0) {
                            let j = choose|j: int|
                                0 <= j < i && raw@.take(i as int)[j].0 == e.0;
                            assert(has_key(pre, raw@[j].0));
                        }
                    }
                }
                assert(entries@ == spec_dedup(raw@.take(i + 1)));
                assert forall|j: int| 0 <= j < i + 1 implies has_key(entries@, raw@[j].0) by {
                    if j < i {
                        let k = choose|k: int| 0 <= k < pre.len() && pre[k].0 == raw@[j].0;
                        assert(entries@[k].0 == raw@[j].0);
                    } else {
                        if present {
                            let k = choose|k: int| 0 <= k < pre.len() && pre[k].0 == e.0;
                            assert(entries@[k].0 == e.0);
                        } else {
                            assert(has_key(entries@, e.0));
                        }
                    }
                }
            }
            i += 1;
        }
        proof {
            assert(raw@.take(raw@.len() as int) =~= raw@);
        }
        proof {
            assert forall|id: u64| lookup(entries@, id) == lookup(raw@, id) by {
                if has_key(entries@, id) {
                    let k = choose|k: int| 0 <= k < entries@.len() && entries@[k].0 == id;
                    lemma_lookup_first_match(entries@, id, k);
                } else {
                    lemma_lookup_absent(entries@, id);
                    if has_key(raw@, id) {
                        let j = choose|j: int| 0 <= j < raw@.len() && raw@[j].0 == id;
                        assert(has_key(entries@, raw@[j].0));
                    }
                    lemma_lookup_absent(raw@, id);
                }
            }
            assert forall|id: u64| has_key(entries@, id) == has_key(raw@, id) by {
                if has_key(entries@, id) {
                    let k = choose|k: int| 0 <= k < entries@.len() && entries@[k].0 == id;
                    let j = choose|j: int| 0 <= j < raw@.len() && raw@[j].0 == entries@[k].0;
                    assert(raw@[j].0 == id);
                } else {
                    if has_key(raw@, id) {
                        let j = choose|j: int| 0 <= j < raw@.len() && raw@[j].0 == id;
                        assert(has_key(entries@, raw@[j].0));
                    }
                }
            }
        }
        FrequencyTable { entries }
    }

    /// Look up an identifier's traversal count; absent means zero.
    pub fn count(&self, id: u64) -> (c: u64)
        ensures
            c == self.spec_count(id),
    {
        let mut i: usize = 0;
        while i < self.entries.len()
            invariant
                i <= self.entries@.len(),
                forall|j: int| 0 <= j < i ==> self.entries@[j].0 != id,
            decreases self.entries@.len() - i,
        {
            if self.entries[i].0 == id {
                proof {
                    lemma_lookup_first_match(self.entries@, id, i as int);
                }
                return self.entries[i].1;
            }
            i += 1;
        }
        proof {
            lemma_lookup_absent(self.entries@, id);
        }
        0
    }

    /// How many distinct identifiers are recorded.
    pub fn len(&self) -> (n: usize)
        ensures
            n == self.spec_entries().len(),
    {
        self.entries.len()
    }

    /// The entry at a position, in first-seen order.
    pub fn entry(&self, i: usize) -> (e: (u64, u64))
        requires
            i < self.spec_entries().len(),
        ensures
            e == self.spec_entries()[i as int],
    {
        self.entries[i]
    }
}

/// Whether an identifier occurs in an entry list.
fn contains_key(entries: &Vec<(u64, u64)>, id: u64) -> (r: bool)
    ensures
        r == has_key(entries@, id),
{
    let mut i: usize = 0;
    while i < entries.len()
        invariant
            i <= entries@.len(),
            forall|j: int| 0 <= j < i ==> entries@[j].0 != id,
        decreases entries@.len() - i,
    {
        if entries[i].0 == id {
            return true;
        }
        i += 1;
    }
    false
}

} // verus!
