//! How many equal angular steps an arc is divided into.
use vstd::prelude::*;

verus! {

/// The number of steps the general (subdivided) branch never goes below.
pub const MIN_SUBDIVIDED_STEPS: usize = 2;

/// Whether an arc falls back to a single chord: the tolerance is not positive,
/// or the radius does not exceed it.
pub open spec fn is_coarse(tolerance_non_positive: bool, radius_within_tolerance: bool) -> bool {
    tolerance_non_positive || radius_within_tolerance
}

/// The step count of an arc.
///
/// `required` is the number of steps of angle `2 * acos(1 - tolerance / radius)`
/// needed to cover the sweep, rounded up; it is only read in the general branch.
pub open spec fn step_count_of(
    tolerance_non_positive: bool,
    radius_within_tolerance: bool,
    required: nat,
) -> nat {
    if is_coarse(tolerance_non_positive, radius_within_tolerance) {
        1
    } else if required < MIN_SUBDIVIDED_STEPS {
        MIN_SUBDIVIDED_STEPS as nat
    } else {
        required
    }
}

/// Decides how many equal angular steps an arc is cut into.
///
/// The coarse branch takes one step over the whole sweep (a single chord from
/// start to end). Otherwise the arc takes `required` steps, but never fewer
/// than two, so that a subdivided arc always has an interior point.
pub fn arc_step_count(
    tolerance_non_positive: bool,
    radius_within_tolerance: bool,
    required: usize,
) -> (n: usize)
    ensures
        n as nat == step_count_of(tolerance_non_positive, radius_within_tolerance, required as nat),
        n >= 1,
        is_coarse(tolerance_non_positive, radius_within_tolerance) ==> n == 1,
        !is_coarse(tolerance_non_positive, radius_within_tolerance) ==> n >= required && n >= 2,
{
    if tolerance_non_positive || radius_within_tolerance {
        1
    } else if required < MIN_SUBDIVIDED_STEPS {
        MIN_SUBDIVIDED_STEPS
    } else {
        required
    }
}

} // verus!
