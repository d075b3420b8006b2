//! The resolution engine: one terminal decision per incoming identifier.
//!
//! A resolution consults the cache first ([`resolve_cached`]).  Only on a
//! miss is the upstream identity service queried — by the caller, since
//! that is a network operation — and its answer handed back as a plain
//! [`UpstreamOutcome`] to [`resolve_uncached`], which either confirms and
//! caches an exact fact or falls back to interpolation between the two
//! nearest cached records.  The engine keeps no state of its own: all
//! durable state lives in the Cache Store.

use vstd::prelude::*;

use crate::estimator::{est_created_at, est_fits, est_margin, estimate};
use crate::store::{
    is_nearest_pair, lemma_cached_value_unique, lemma_nearest_pair_unique, spec_contains_id,
    wf_records, CacheRecord, CacheStore,
};

verus! {

/// What the upstream identity service answered for one identifier.
///
/// `NotFound` (profile private, missing, or without data) and
/// `TransportError` (network or decode failure) are distinguished only for
/// observability: both trigger the same estimation fallback.
#[derive(Clone, Copy, PartialEq, Eq, Structural, Debug)]
pub enum UpstreamOutcome {
    /// The profile is public and reports this creation time.
    Found(i64),
    /// The service answered, but without a creation time.
    NotFound,
    /// The service could not be reached or its answer not be read.
    TransportError,
}

/// The only error the engine surfaces: the identifier could not be
/// resolved exactly and the cache holds too little to estimate from.
#[derive(Clone, Copy, PartialEq, Eq, Structural, Debug)]
pub enum ResolutionError {
    /// Fewer than two usable reference points were available.
    Unresolvable,
}

/// The engine's one output type.  Provenance is carried by the margin:
/// zero means an exact value (cache or upstream hit), a positive margin an
/// interpolated estimate.
#[derive(Clone, Copy, PartialEq, Eq, Structural, Debug)]
pub struct ResolutionResult {
    /// The identifier that was resolved.
    pub identifier: i64,
    /// Its creation time in unix seconds, exact or estimated.
    pub created_at: i64,
    /// Error margin in seconds; `0` signals an exact value.
    pub error_margin: i64,
}

impl ResolutionResult {
    /// An exact result: a creation time confirmed by the cache or by the
    /// identity service itself, so the margin is zero.
    pub fn exact(identifier: i64, created_at: i64) -> (r: ResolutionResult)
        ensures
            r == (ResolutionResult { identifier, created_at, error_margin: 0 }),
    {
        ResolutionResult { identifier, created_at, error_margin: 0 }
    }
}

/// The timestamp the store records for `identifier`, when it records one.
pub open spec fn spec_cached_at(s: Seq<CacheRecord>, identifier: i64) -> i64 {
    choose|created_at: i64| s.contains(CacheRecord { identifier, created_at })
}

/// What a cache consultation decides: the recorded exact result on a hit,
/// nothing on a miss.
pub open spec fn spec_resolve_cached(s: Seq<CacheRecord>, identifier: i64) -> Option<
    ResolutionResult,
> {
    if spec_contains_id(s, identifier) {
        Some(
            ResolutionResult {
                identifier,
                created_at: spec_cached_at(s, identifier),
                error_margin: 0,
            },
        )
    } else {
        None
    }
}

/// What estimation from two reference records yields: the records are
/// taken in ascending-identifier order, whatever order they arrive in, and
/// any degenerate or unrepresentable case collapses to `Unresolvable`.
pub open spec fn spec_estimation(target_id: i64, a: CacheRecord, b: CacheRecord) -> Result<
    ResolutionResult,
    ResolutionError,
> {
    let lo = if a.identifier <= b.identifier {
        a
    } else {
        b
    };
    let hi = if a.identifier <= b.identifier {
        b
    } else {
        a
    };
    if lo.identifier == hi.identifier {
        Err(ResolutionError::Unresolvable)
    } else if est_fits(
        target_id as int,
        lo.identifier as int,
        lo.created_at as int,
        hi.identifier as int,
        hi.created_at as int,
    ) {
        Ok(
            ResolutionResult {
                identifier: target_id,
                created_at: est_created_at(
                    target_id as int,
                    lo.identifier as int,
                    lo.created_at as int,
                    hi.identifier as int,
                    hi.created_at as int,
                ) as i64,
                error_margin: est_margin(
                    target_id as int,
                    lo.identifier as int,
                    lo.created_at as int,
                    hi.identifier as int,
                    hi.created_at as int,
                ) as i64,
            },
        )
    } else {
        Err(ResolutionError::Unresolvable)
    }
}

/// First step of a resolution: consult the cache.  On a hit the recorded
/// value is returned exactly, with margin zero, and no upstream call is
/// needed; on a miss the caller queries the identity service and continues
/// with [`resolve_uncached`].
pub fn resolve_cached(store: &CacheStore, identifier: i64) -> (r: Option<ResolutionResult>)
    requires
        store.wf(),
    ensures
        r == spec_resolve_cached(store@, identifier),
        forall|created_at: i64|
            store@.contains(CacheRecord { identifier, created_at }) ==> r == Some(
                ResolutionResult { identifier, created_at, error_margin: 0 },
            ),
        r is Some <==> spec_contains_id(store@, identifier),
{
    match store.lookup_exact(identifier) {
        Some(created_at) => {
            proof {
                let chosen = spec_cached_at(store@, identifier);
                lemma_cached_value_unique(store@, identifier, chosen, created_at);
                assert forall|other: i64|
                    store@.contains(
                        CacheRecord { identifier, created_at: other },
                    ) implies ResolutionResult {
                    identifier,
                    created_at,
                    error_margin: 0,
                } == (ResolutionResult { identifier, created_at: other, error_margin: 0 }) by {
                    lemma_cached_value_unique(store@, identifier, other, created_at);
                }
            }
            Some(ResolutionResult { identifier, created_at, error_margin: 0 })
        },
        None => None,
    }
}

/// Remaining steps of a resolution, on a cache miss, once the upstream
/// answer is in hand.
///
/// A `Found` timestamp is authoritative: it is returned exactly and
/// written to the cache.  A write conflict — another resolution of the
/// same identifier got there first — is benign and swallowed; the result
/// is returned regardless of the cache write.  On `NotFound` or
/// `TransportError` the engine estimates from the two cached records
/// nearest to the identifier, and fails with
/// [`ResolutionError::Unresolvable`] when fewer than two exist or the
/// estimator cannot produce a result.
pub fn resolve_uncached(store: &mut CacheStore, identifier: i64, outcome: UpstreamOutcome) -> (r:
    Result<ResolutionResult, ResolutionError>)
    requires
        old(store).wf(),
        identifier >= 0,
    ensures
        final(store).wf(),
        outcome matches UpstreamOutcome::Found(ts) ==> r == Ok::<ResolutionResult, ResolutionError>(
            ResolutionResult { identifier, created_at: ts, error_margin: 0 },
        ),
        outcome matches UpstreamOutcome::Found(ts) ==> (!spec_contains_id(old(store)@, identifier)
            ==> final(store)@ == old(store)@.push(CacheRecord { identifier, created_at: ts })),
        outcome is Found ==> (spec_contains_id(old(store)@, identifier) ==> final(store)@ == old(
            store,
        )@),
        outcome is Found ==> spec_contains_id(final(store)@, identifier),
        !(outcome is Found) ==> final(store)@ == old(store)@,
        !(outcome is Found) && old(store)@.len() < 2 ==> r == Err::<
            ResolutionResult,
            ResolutionError,
        >(ResolutionError::Unresolvable),
        !(outcome is Found) && old(store)@.len() >= 2 ==> exists|a: CacheRecord, b: CacheRecord|
            is_nearest_pair(old(store)@, identifier, a, b) && r == spec_estimation(
                identifier,
                a,
                b,
            ),
        r matches Ok(res) ==> res.identifier == identifier && res.error_margin >= 0,
{
    match outcome {
        UpstreamOutcome::Found(created_at) => {
            // A Conflict here means a concurrent resolution already cached
            // this identifier; the store keeps its fact and we keep ours.
            let _ = store.insert(identifier, created_at);
            proof {
                if !spec_contains_id(old(store)@, identifier) {
                    assert(store@[store@.len() - 1].identifier == identifier);
                }
            }
            Ok(ResolutionResult { identifier, created_at, error_margin: 0 })
        },
        _ => {
            let neighbors = store.nearest_two(identifier);
            proof {
                if store@.len() >= 2 {
                    assert(is_nearest_pair(store@, identifier, neighbors@[0], neighbors@[1]));
                }
            }
            estimate_from_neighbors(identifier, &neighbors)
        },
    }
}

/// Estimate from the reference records a nearest-neighbor query returned.
/// Exactly two are needed; they are handed to the estimator in
/// ascending-identifier order, whatever order they arrived in.
pub fn estimate_from_neighbors(target_id: i64, neighbors: &Vec<CacheRecord>) -> (r: Result<
    ResolutionResult,
    ResolutionError,
>)
    requires
        target_id >= 0,
        forall|i: int| 0 <= i < neighbors@.len() ==> neighbors@[i].identifier >= 0,
    ensures
        neighbors@.len() != 2 ==> r == Err::<ResolutionResult, ResolutionError>(
            ResolutionError::Unresolvable,
        ),
        neighbors@.len() == 2 ==> r == spec_estimation(target_id, neighbors@[0], neighbors@[1]),
        r matches Ok(res) ==> res.identifier == target_id && res.error_margin >= 0,
{
    if neighbors.len() != 2 {
        return Err(ResolutionError::Unresolvable);
    }
    let first = neighbors[0];
    let second = neighbors[1];
    let (lo, hi) = if first.identifier <= second.identifier {
        (first, second)
    } else {
        (second, first)
    };
    match estimate(target_id, (lo.identifier, lo.created_at), (hi.identifier, hi.created_at)) {
        Ok(e) => Ok(
            ResolutionResult {
                identifier: target_id,
                created_at: e.created_at,
                error_margin: e.error_margin,
            },
        ),
        Err(_) => Err(ResolutionError::Unresolvable),
    }
}

/// Law: resolution is idempotent after an exact hit.  Once an exact fact
/// for an identifier stands in the cache, every later resolution of that
/// identifier is answered by the cache alone — [`resolve_cached`] returns
/// the identical exact result, and the upstream service is never consulted
/// again.
pub proof fn lemma_exact_hit_idempotent(s: Seq<CacheRecord>, identifier: i64, created_at: i64)
    requires
        wf_records(s),
        s.contains(CacheRecord { identifier, created_at }),
    ensures
        spec_resolve_cached(s, identifier) == Some(
            ResolutionResult { identifier, created_at, error_margin: 0 },
        ),
{
    let r = CacheRecord { identifier, created_at };
    let i = choose|i: int| 0 <= i < s.len() && s[i] == r;
    assert(s[i].identifier == identifier);
    lemma_cached_value_unique(s, identifier, spec_cached_at(s, identifier), created_at);
}

/// Law: estimation does not depend on the order in which the two reference
/// records arrive — the engine sorts them by identifier before
/// interpolating.
pub proof fn lemma_estimation_symmetric(target_id: i64, a: CacheRecord, b: CacheRecord)
    ensures
        spec_estimation(target_id, a, b) == spec_estimation(target_id, b, a),
{
}

/// Law: estimation is deterministic for a given cache population.  The
/// nearest pair of a store is unique, so any two resolutions that fall
/// back to estimation over the same records decide the same result.
pub proof fn lemma_estimation_deterministic(
    s: Seq<CacheRecord>,
    target_id: i64,
    a: CacheRecord,
    b: CacheRecord,
    c: CacheRecord,
    d: CacheRecord,
)
    requires
        is_nearest_pair(s, target_id, a, b),
        is_nearest_pair(s, target_id, c, d),
    ensures
        spec_estimation(target_id, a, b) == spec_estimation(target_id, c, d),
{
    lemma_nearest_pair_unique(s, target_id, a, b, c, d);
}

} // verus!
