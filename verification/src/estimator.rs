//! Linear interpolation between two confirmed records.
//!
//! Identifiers are assigned roughly in order of account creation, so the
//! creation time of an unknown identifier can be estimated from the local
//! slope between two known (identifier, timestamp) points.  The margin of
//! error scales with how far the target lies from the first reference
//! point: a heuristic signal of confidence, not a statistically derived
//! interval.  All arithmetic is exact over the integers, with the
//! real-valued slope products truncated toward zero.

use vstd::prelude::*;

use crate::math::{abs_int, trunc_div};

verus! {

/// An estimated creation time together with its margin of error.
#[derive(Clone, Copy, PartialEq, Eq, Structural, Debug)]
pub struct Estimate {
    /// Estimated creation time, in unix seconds.
    pub created_at: i64,
    /// Margin of error in seconds; always non-negative.
    pub error_margin: i64,
}

/// Failure of the estimator.
#[derive(Clone, Copy, PartialEq, Eq, Structural, Debug)]
pub enum EstimatorError {
    /// The two reference points share an identifier, so no slope exists.
    InsufficientData,
    /// The exact estimate or margin does not fit in a 64-bit result.
    OutOfRange,
}

/// The signed offset added to the first reference timestamp:
/// `slope * (target_id - id_a)` with `slope = (t_b - t_a) / (id_b - id_a)`,
/// computed exactly and truncated toward zero.
pub open spec fn est_delta(target_id: int, id_a: int, t_a: int, id_b: int, t_b: int) -> int
    recommends
        id_a != id_b,
{
    trunc_div((t_b - t_a) * (target_id - id_a), id_b - id_a)
}

/// The estimated creation time: the first reference timestamp plus the
/// truncated slope offset.
pub open spec fn est_created_at(target_id: int, id_a: int, t_a: int, id_b: int, t_b: int) -> int {
    t_a + est_delta(target_id, id_a, t_a, id_b, t_b)
}

/// The margin of error: the magnitude of the slope offset.
pub open spec fn est_margin(target_id: int, id_a: int, t_a: int, id_b: int, t_b: int) -> int {
    abs_int(est_delta(target_id, id_a, t_a, id_b, t_b))
}

/// Whether the exact estimate and margin both fit in 64-bit results.
pub open spec fn est_fits(target_id: int, id_a: int, t_a: int, id_b: int, t_b: int) -> bool {
    &&& i64::MIN <= est_created_at(target_id, id_a, t_a, id_b, t_b) <= i64::MAX
    &&& est_margin(target_id, id_a, t_a, id_b, t_b) <= i64::MAX
}

/// Magnitude and sign of the slope offset, computed exactly in wide
/// integers.  Returns `(magnitude, negative)` such that the offset is
/// `-magnitude` when `negative` holds and `magnitude` otherwise.
fn delta_parts(target_id: i64, id_a: i64, t_a: i64, id_b: i64, t_b: i64) -> (r: (u128, bool))
    requires
        target_id >= 0,
        id_a >= 0,
        id_b >= 0,
        id_a != id_b,
    ensures
        est_delta(target_id as int, id_a as int, t_a as int, id_b as int, t_b as int) == (if r.1 {
            -(r.0 as int)
        } else {
            r.0 as int
        }),
        r.0 == abs_int(est_delta(target_id as int, id_a as int, t_a as int, id_b as int, t_b as int)),
{
    let dt: i128 = (t_b as i128) - (t_a as i128);
    let dx: i128 = (target_id as i128) - (id_a as i128);
    proof {
        // Both factors are bounded well enough that the product fits in
        // 128 bits: |dt| < 2^64 and, identifiers being non-negative,
        // |dx| < 2^63.
        assert((dt as int) * (dx as int) <= i128::MAX && (dt as int) * (dx as int)
            >= -i128::MAX) by (nonlinear_arith)
            requires
                -0xffff_ffff_ffff_ffff <= (dt as int) <= 0xffff_ffff_ffff_ffff,
                -0x7fff_ffff_ffff_ffff <= (dx as int) <= 0x7fff_ffff_ffff_ffff,
        ;
    }
    let num: i128 = dt * dx;
    let den: i128 = (id_b as i128) - (id_a as i128);
    let num_neg: bool = num < 0;
    let den_neg: bool = den < 0;
    let num_mag: u128 = if num_neg {
        (-num) as u128
    } else {
        num as u128
    };
    let den_mag: u128 = if den_neg {
        (-den) as u128
    } else {
        den as u128
    };
    let q: u128 = num_mag / den_mag;
    proof {
        assert(num_mag as int == abs_int((t_b - t_a) * (target_id as int - id_a)));
        assert(den_mag as int == abs_int(id_b - id_a as int));
    }
    (q, num_neg != den_neg)
}

/// Interpolate the creation time of `target_id` from the reference points
/// `a = (id_a, t_a)` and `b = (id_b, t_b)`.
///
/// The local slope is `(t_b - t_a) / (id_b - id_a)` as a real number; the
/// estimate is `t_a + slope * (target_id - id_a)` and the margin is
/// `|slope * (target_id - id_a)|`, each truncated toward zero.  The target
/// may lie outside the span of the two points: extrapolation is permitted
/// and by design yields a larger margin, signalling lower confidence.
/// Reference points with equal identifiers admit no slope and are rejected
/// rather than dividing by zero.
pub fn estimate(target_id: i64, a: (i64, i64), b: (i64, i64)) -> (r: Result<
    Estimate,
    EstimatorError,
>)
    requires
        target_id >= 0,
        a.0 >= 0,
        b.0 >= 0,
    ensures
        a.0 == b.0 <==> r == Err::<Estimate, EstimatorError>(EstimatorError::InsufficientData),
        a.0 != b.0 && est_fits(target_id as int, a.0 as int, a.1 as int, b.0 as int, b.1 as int)
            ==> (r matches Ok(e) && e.created_at == est_created_at(
            target_id as int,
            a.0 as int,
            a.1 as int,
            b.0 as int,
            b.1 as int,
        ) && e.error_margin == est_margin(
            target_id as int,
            a.0 as int,
            a.1 as int,
            b.0 as int,
            b.1 as int,
        )),
        a.0 != b.0 && !est_fits(target_id as int, a.0 as int, a.1 as int, b.0 as int, b.1 as int)
            ==> r == Err::<Estimate, EstimatorError>(EstimatorError::OutOfRange),
{
    let (id_a, t_a) = a;
    let (id_b, t_b) = b;
    if id_a == id_b {
        return Err(EstimatorError::InsufficientData);
    }
    let (magnitude, negative) = delta_parts(target_id, id_a, t_a, id_b, t_b);
    if magnitude > i64::MAX as u128 {
        return Err(EstimatorError::OutOfRange);
    }
    let margin: i64 = magnitude as i64;
    let delta: i128 = if negative {
        -(margin as i128)
    } else {
        margin as i128
    };
    let created: i128 = (t_a as i128) + delta;
    if created < i64::MIN as i128 || created > i64::MAX as i128 {
        return Err(EstimatorError::OutOfRange);
    }
    Ok(Estimate { created_at: created as i64, error_margin: margin })
}

/// Margin of error of the interpolation: `|slope * (target_id - lower_id)|`
/// truncated toward zero, where the slope is taken between the two
/// reference points.  The reference identifiers must differ, and the exact
/// margin must fit in the 64-bit result.
pub fn calculate_error_range(
    target_id: i64,
    lower_id: i64,
    lower_time: i64,
    upper_id: i64,
    upper_time: i64,
) -> (r: i64)
    requires
        target_id >= 0,
        lower_id >= 0,
        upper_id >= 0,
        lower_id != upper_id,
        est_margin(
            target_id as int,
            lower_id as int,
            lower_time as int,
            upper_id as int,
            upper_time as int,
        ) <= i64::MAX,
    ensures
        r == est_margin(
            target_id as int,
            lower_id as int,
            lower_time as int,
            upper_id as int,
            upper_time as int,
        ),
{
    let (magnitude, _negative) = delta_parts(target_id, lower_id, lower_time, upper_id, upper_time);
    magnitude as i64
}

} // verus!
