//! The cache of confirmed creation timestamps.
//!
//! The store is an append-only fact table: one record per identifier,
//! holding a creation timestamp obtained directly from the identity
//! service.  Estimates are never written to it, so interpolation error can
//! never compound across future estimates.  Besides point lookup and
//! insert-if-absent, the store answers the one query that makes
//! interpolation possible: the two records whose identifiers are
//! numerically closest to a target.

use vstd::prelude::*;

use crate::math::abs_int;

verus! {

/// One confirmed fact: the creation timestamp of one identifier, in unix
/// seconds, as the identity service reported it.
#[derive(Clone, Copy, PartialEq, Eq, Structural, Debug)]
pub struct CacheRecord {
    /// The numeric account identifier; non-negative, unique in the store.
    pub identifier: i64,
    /// Creation time of the account, in unix seconds.
    pub created_at: i64,
}

/// Failure of a store mutation.
#[derive(Clone, Copy, PartialEq, Eq, Structural, Debug)]
pub enum StoreError {
    /// The identifier is already recorded.  Benign: two concurrent
    /// resolutions of the same identifier may both try to cache it.
    Conflict,
    /// The backing store cannot be reached.  The in-memory store never
    /// reports this; it is produced by callers that put these records
    /// behind remote storage.
    Unavailable,
}

/// Identifiers are pairwise distinct: the store maps each identifier to at
/// most one timestamp.
pub open spec fn ids_unique(s: Seq<CacheRecord>) -> bool {
    forall|i: int, j: int|
        0 <= i < j < s.len() ==> s[i].identifier != s[j].identifier
}

/// Identifiers are non-negative, as the identity service assigns them.
pub open spec fn ids_nonneg(s: Seq<CacheRecord>) -> bool {
    forall|i: int| 0 <= i < s.len() ==> s[i].identifier >= 0
}

/// Well-formedness of the stored facts.
pub open spec fn wf_records(s: Seq<CacheRecord>) -> bool {
    ids_unique(s) && ids_nonneg(s)
}

/// Some record with this identifier is present.
pub open spec fn spec_contains_id(s: Seq<CacheRecord>, identifier: i64) -> bool {
    exists|i: int| 0 <= i < s.len() && s[i].identifier == identifier
}

/// Numeric distance between a record's identifier and the target.
pub open spec fn distance_to(target: i64, r: CacheRecord) -> int {
    abs_int(r.identifier - target)
}

/// Strict ranking of records by closeness to `target`: smaller numeric
/// distance first, ties broken toward the lower identifier.  For records
/// with distinct identifiers this order is total, so the nearest pair of a
/// store is uniquely determined.
pub open spec fn ranks_before(target: i64, a: CacheRecord, b: CacheRecord) -> bool {
    distance_to(target, a) < distance_to(target, b) || (distance_to(target, a) == distance_to(
        target,
        b,
    ) && a.identifier < b.identifier)
}

/// `a` and `b` are the two records of `s` closest to `target`, in ranking
/// order: every other record of `s` ranks after both.
pub open spec fn is_nearest_pair(
    s: Seq<CacheRecord>,
    target: i64,
    a: CacheRecord,
    b: CacheRecord,
) -> bool {
    &&& s.contains(a)
    &&& s.contains(b)
    &&& a != b
    &&& ranks_before(target, a, b)
    &&& forall|i: int|
        0 <= i < s.len() && s[i] != a && s[i] != b ==> ranks_before(target, b, s[i])
}

/// The ranking never holds both ways round.
proof fn lemma_ranks_asymmetric(target: i64, a: CacheRecord, b: CacheRecord)
    ensures
        !(ranks_before(target, a, b) && ranks_before(target, b, a)),
{
}

/// Records with distinct identifiers are always ordered by the ranking.
proof fn lemma_ranks_total(target: i64, a: CacheRecord, b: CacheRecord)
    requires
        a.identifier != b.identifier,
    ensures
        ranks_before(target, a, b) || ranks_before(target, b, a),
{
}

/// The ranking is transitive.
proof fn lemma_ranks_transitive(target: i64, a: CacheRecord, b: CacheRecord, c: CacheRecord)
    requires
        ranks_before(target, a, b),
        ranks_before(target, b, c),
    ensures
        ranks_before(target, a, c),
{
}

/// Executable form of [`ranks_before`].  With target and identifiers
/// non-negative, the distances fit in 64 bits.
fn ranked_before(target: i64, a: CacheRecord, b: CacheRecord) -> (r: bool)
    requires
        target >= 0,
        a.identifier >= 0,
        b.identifier >= 0,
    ensures
        r == ranks_before(target, a, b),
{
    let da: i64 = if a.identifier >= target {
        a.identifier - target
    } else {
        target - a.identifier
    };
    let db: i64 = if b.identifier >= target {
        b.identifier - target
    } else {
        target - b.identifier
    };
    da < db || (da == db && a.identifier < b.identifier)
}

/// A store holds at most one timestamp per identifier.
pub proof fn lemma_cached_value_unique(s: Seq<CacheRecord>, identifier: i64, t1: i64, t2: i64)
    requires
        wf_records(s),
        s.contains(CacheRecord { identifier, created_at: t1 }),
        s.contains(CacheRecord { identifier, created_at: t2 }),
    ensures
        t1 == t2,
{
    let r1 = CacheRecord { identifier, created_at: t1 };
    let r2 = CacheRecord { identifier, created_at: t2 };
    let i = choose|i: int| 0 <= i < s.len() && s[i] == r1;
    let j = choose|j: int| 0 <= j < s.len() && s[j] == r2;
    assert(s[i] == r1);
    assert(s[j] == r2);
    if i != j {
        assert(s[i].identifier != s[j].identifier);
    }
}

/// The nearest pair of a store is unique: part of what makes estimation
/// deterministic for a given cache population.
pub proof fn lemma_nearest_pair_unique(
    s: Seq<CacheRecord>,
    target: i64,
    a: CacheRecord,
    b: CacheRecord,
    c: CacheRecord,
    d: CacheRecord,
)
    requires
        is_nearest_pair(s, target, a, b),
        is_nearest_pair(s, target, c, d),
    ensures
        a == c,
        b == d,
{
    let ia = choose|i: int| 0 <= i < s.len() && s[i] == a;
    let ib = choose|i: int| 0 <= i < s.len() && s[i] == b;
    let ic = choose|i: int| 0 <= i < s.len() && s[i] == c;
    let id = choose|i: int| 0 <= i < s.len() && s[i] == d;
    assert(s[ia] == a && s[ib] == b && s[ic] == c && s[id] == d);
    if a != c {
        // Each pair's head ranks before the other pair's head: impossible.
        if c != b {
            assert(ranks_before(target, b, c));
            lemma_ranks_transitive(target, a, b, c);
        }
        assert(ranks_before(target, a, c));
        if a != d {
            assert(ranks_before(target, d, a));
            lemma_ranks_transitive(target, c, d, a);
        }
        assert(ranks_before(target, c, a));
        lemma_ranks_asymmetric(target, a, c);
        assert(false);
    }
    if b != d {
        // With the heads equal, each tail ranks before the other: impossible.
        assert(d != a);
        assert(ranks_before(target, b, d));
        assert(b != c);
        assert(ranks_before(target, d, b));
        lemma_ranks_asymmetric(target, b, d);
        assert(false);
    }
}

/// The in-memory Cache Store: a persistent key-to-value mapping from
/// identifier to confirmed creation timestamp.
///
/// Reads are side-effect-free; [`CacheStore::insert`] is the only mutator
/// and never overwrites, so the store only ever accumulates facts.
pub struct CacheStore {
    records: Vec<CacheRecord>,
}

impl View for CacheStore {
    type V = Seq<CacheRecord>;

    closed spec fn view(&self) -> Seq<CacheRecord> {
        self.records@
    }
}

impl CacheStore {
    /// The store's invariant: identifiers unique and non-negative.
    pub open spec fn wf(&self) -> bool {
        wf_records(self@)
    }

    /// An empty store.
    pub fn new() -> (s: CacheStore)
        ensures
            s.wf(),
            s@ =~= Seq::<CacheRecord>::empty(),
    {
        CacheStore { records: Vec::new() }
    }

    /// How many identifiers are recorded.
    pub fn len(&self) -> (n: usize)
        ensures
            n == self@.len(),
    {
        self.records.len()
    }

    /// Point read: the recorded timestamp of `identifier`, if any.  A miss
    /// is a normal outcome, not a failure.
    pub fn lookup_exact(&self, identifier: i64) -> (r: Option<i64>)
        ensures
            r matches Some(created_at) ==> self@.contains(CacheRecord { identifier, created_at }),
            r is Some <==> spec_contains_id(self@, identifier),
    {
        let n = self.records.len();
        let mut i: usize = 0;
        while i < n
            invariant
                i <= n,
                n == self.records.len(),
                forall|j: int| 0 <= j < i ==> self.records@[j].identifier != identifier,
            decreases n - i,
        {
            if self.records[i].identifier == identifier {
                let found = self.records[i];
                assert(self@[i as int] == found);
                return Some(found.created_at);
            }
            i += 1;
        }
        None
    }

    /// Insert-if-absent.  Fails with [`StoreError::Conflict`] when the
    /// identifier is already recorded; the old fact is kept, since every
    /// recorded value came from the identity service and is equally
    /// authoritative.
    pub fn insert(&mut self, identifier: i64, created_at: i64) -> (r: Result<(), StoreError>)
        requires
            old(self).wf(),
            identifier >= 0,
        ensures
            final(self).wf(),
            spec_contains_id(old(self)@, identifier) ==> r == Err::<(), StoreError>(
                StoreError::Conflict,
            ) && final(self)@ == old(self)@,
            !spec_contains_id(old(self)@, identifier) ==> r == Ok::<(), StoreError>(())
                && final(self)@ == old(self)@.push(CacheRecord { identifier, created_at }),
    {
        if self.lookup_exact(identifier).is_some() {
            return Err(StoreError::Conflict);
        }
        self.push_absent(identifier, created_at);
        Ok(())
    }

    /// Append a record known to be absent.
    fn push_absent(&mut self, identifier: i64, created_at: i64)
        requires
            old(self).wf(),
            identifier >= 0,
            !spec_contains_id(old(self)@, identifier),
        ensures
            final(self).wf(),
            final(self)@ == old(self)@.push(CacheRecord { identifier, created_at }),
    {
        let ghost pre = self@;
        self.records.push(CacheRecord { identifier, created_at });
        proof {
            assert forall|i: int, j: int|
                0 <= i < j < self@.len() implies self@[i].identifier != self@[j].identifier by {
                if j == pre.len() {
                    assert(self@[i] == pre[i]);
                }
            }
        }
    }

    /// Range read: up to two records whose identifiers are numerically
    /// closest to `target`, ordered by distance ascending, ties broken
    /// toward the lower identifier.  Returns fewer than two only when the
    /// store holds fewer than two records.  The two results need not
    /// bracket the target — both may lie above or below it.
    pub fn nearest_two(&self, target: i64) -> (r: Vec<CacheRecord>)
        requires
            self.wf(),
            target >= 0,
        ensures
            r@.len() == if self@.len() < 2 {
                self@.len() as int
            } else {
                2int
            },
            self@.len() == 1 ==> r@[0] == self@[0],
            self@.len() >= 2 ==> is_nearest_pair(self@, target, r@[0], r@[1]),
    {
        let n = self.records.len();
        let mut best = CacheRecord { identifier: 0, created_at: 0 };
        let mut second = best;
        let mut i: usize = 0;
        while i < n
            invariant
                i <= n,
                n == self.records.len(),
                wf_records(self.records@),
                target >= 0,
                i >= 1 ==> exists|j: int| 0 <= j < i && self.records@[j] == best,
                i >= 1 ==> forall|j: int|
                    0 <= j < i ==> self.records@[j] == best || ranks_before(
                        target,
                        best,
                        self.records@[j],
                    ),
                i >= 2 ==> exists|j: int| 0 <= j < i && self.records@[j] == second,
                i >= 2 ==> second != best && ranks_before(target, best, second),
                i >= 2 ==> forall|j: int|
                    0 <= j < i ==> self.records@[j] == best || self.records@[j] == second
                        || ranks_before(target, second, self.records@[j]),
            decreases n - i,
        {
            let current = self.records[i];
            proof {
                assert(self.records@[i as int] == current);
                // A record already ranked sits at an earlier index, so its
                // identifier differs from the current one.
                if i >= 1 {
                    let jb = choose|j: int| 0 <= j < i && self.records@[j] == best;
                    assert(self.records@[jb].identifier != self.records@[i as int].identifier);
                    lemma_ranks_total(target, current, best);
                }
                if i >= 2 {
                    let js = choose|j: int| 0 <= j < i && self.records@[j] == second;
                    assert(self.records@[js].identifier != self.records@[i as int].identifier);
                    lemma_ranks_total(target, current, second);
                }
            }
            if i == 0 {
                best = current;
            } else if ranked_before(target, current, best) {
                proof {
                    lemma_ranks_transitive_all(target, current, best, best, self.records@, i as int);
                }
                second = best;
                best = current;
            } else if i == 1 {
                second = current;
            } else if ranked_before(target, current, second) {
                proof {
                    lemma_ranks_transitive_all(target, current, second, best, self.records@, i as int);
                }
                second = current;
            }
            i += 1;
        }
        let mut r: Vec<CacheRecord> = Vec::new();
        if n >= 1 {
            r.push(best);
        }
        if n >= 2 {
            r.push(second);
        }
        r
    }
}

/// Everything the old runner-up outranked, a new record that outranks the
/// old runner-up outranks too; the front-runner `keep` stays exempt.
proof fn lemma_ranks_transitive_all(
    target: i64,
    new_r: CacheRecord,
    old_r: CacheRecord,
    keep: CacheRecord,
    s: Seq<CacheRecord>,
    upto: int,
)
    requires
        ranks_before(target, new_r, old_r),
        forall|j: int|
            0 <= j < upto ==> s[j] == keep || s[j] == old_r || ranks_before(target, old_r, s[j]),
    ensures
        forall|j: int| 0 <= j < upto ==> s[j] == keep || ranks_before(target, new_r, s[j]),
{
    assert forall|j: int| 0 <= j < upto && s[j] != keep implies ranks_before(
        target,
        new_r,
        s[j],
    ) by {
        if s[j] != old_r {
            lemma_ranks_transitive(target, new_r, old_r, s[j]);
        }
    }
}

} // verus!
