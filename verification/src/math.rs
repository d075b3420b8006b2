//! Integer arithmetic used by the estimator: absolute value and division
//! that truncates toward zero, stated over mathematical integers.

use vstd::prelude::*;

verus! {

/// Absolute value of a mathematical integer.
pub open spec fn abs_int(x: int) -> int {
    if x < 0 {
        -x
    } else {
        x
    }
}

/// Division truncating toward zero, the rounding used when a real-valued
/// slope computation is cut down to a whole number of seconds.
///
/// On non-negative operands `int` division already truncates, so the
/// quotient of the magnitudes is taken and the sign is put back afterwards.
pub open spec fn trunc_div(num: int, den: int) -> int
    recommends
        den != 0,
{
    if (num < 0) == (den < 0) {
        abs_int(num) / abs_int(den)
    } else {
        -(abs_int(num) / abs_int(den))
    }
}

} // verus!
