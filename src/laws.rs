//! Properties of the approximation that relate several of its parts.
use vstd::prelude::*;

use crate::approximate::{all_indices, CursorModel};
use crate::subdivision::{is_coarse, step_count_of};

verus! {

/// A fresh cursor yields `steps + 1` points, the first at index 0 (the arc's
/// start, swept angle 0) and the last at index `steps` (the arc's end, swept
/// angle `steps * delta`, the whole sweep).
pub proof fn lemma_endpoints(c: CursorModel)
    requires
        c.position == 0,
    ensures
        c.remaining().len() == c.steps + 1,
        c.remaining().first() == 0,
        c.remaining().last() == c.steps,
        c.remaining() == all_indices(c.steps),
{
}

/// An arc that falls back to a single chord yields exactly two points; a
/// subdivided arc yields at least three.
pub proof fn lemma_point_count(
    tolerance_non_positive: bool,
    radius_within_tolerance: bool,
    required: nat,
)
    ensures
        is_coarse(tolerance_non_positive, radius_within_tolerance) ==> all_indices(
            step_count_of(tolerance_non_positive, radius_within_tolerance, required),
        ).len() == 2,
        !is_coarse(tolerance_non_positive, radius_within_tolerance) ==> all_indices(
            step_count_of(tolerance_non_positive, radius_within_tolerance, required),
        ).len() >= 3,
{
}

/// Two approximations of the same arc with the same tolerance yield the same
/// points in the same order: fresh cursors with one step count have equal
/// sequences ahead of them.
pub proof fn lemma_deterministic(a: CursorModel, b: CursorModel)
    requires
        a.position == 0,
        b.position == 0,
        a.steps == b.steps,
    ensures
        a.remaining() == b.remaining(),
{
}

} // verus!
