//! The single-pass cursor over the subdivision points of an arc, and the exact
//! approximations of points and line segments.
use vstd::prelude::*;

use crate::subdivision::{arc_step_count, step_count_of};

verus! {

/// What a cursor stands for: the index of the next point it yields, and the
/// arc's step count. Point `k` lies at swept angle `k * delta` from the arc's
/// start, where `delta` is the sweep divided by `steps`.
pub struct CursorModel {
    pub position: nat,
    pub steps: nat,
}

/// The indices `from, from + 1, ..., steps` in order.
pub open spec fn indices_from(from: nat, steps: nat) -> Seq<nat> {
    Seq::new((steps + 1 - from) as nat, |k: int| (from + k) as nat)
}

/// Every point of an arc cut into `steps` steps: `0, 1, ..., steps`.
pub open spec fn all_indices(steps: nat) -> Seq<nat> {
    indices_from(0, steps)
}

impl CursorModel {
    /// The indices still to come.
    pub open spec fn remaining(self) -> Seq<nat> {
        indices_from(self.position, self.steps)
    }
}

/// A forward-only cursor over the points of an arc approximation.
///
/// It yields the step indices `0..=steps`, each once and in order; the caller
/// turns index `k` into the point at swept angle `k * delta`. Once exhausted it
/// stays exhausted: a new sequence needs a new cursor.
#[derive(Debug)]
pub struct ApproximatedArc {
    i: usize,
    steps: usize,
    exhausted: bool,
}

impl View for ApproximatedArc {
    type V = CursorModel;

    closed spec fn view(&self) -> CursorModel {
        CursorModel {
            position: if self.exhausted { (self.steps + 1) as nat } else { self.i as nat },
            steps: self.steps as nat,
        }
    }
}

impl ApproximatedArc {
    #[verifier::type_invariant]
    spec fn inv(self) -> bool {
        self.i <= self.steps
    }

    /// A fresh cursor over an arc cut into `steps` steps.
    pub fn new(steps: usize) -> (r: Self)
        ensures
            r@ == (CursorModel { position: 0, steps: steps as nat }),
    {
        ApproximatedArc { i: 0, steps, exhausted: false }
    }

    /// The cursor over an arc, with its step count decided by
    /// [`arc_step_count`] from the same inputs.
    pub fn for_arc(
        tolerance_non_positive: bool,
        radius_within_tolerance: bool,
        required: usize,
    ) -> (r: Self)
        ensures
            r@ == (CursorModel {
                position: 0,
                steps: step_count_of(tolerance_non_positive, radius_within_tolerance, required as nat),
            }),
    {
        let steps = arc_step_count(tolerance_non_positive, radius_within_tolerance, required);
        ApproximatedArc::new(steps)
    }

    /// Yields the index of the next point, or `None` once all `steps + 1`
    /// points have been yielded.
    pub fn next(&mut self) -> (r: Option<usize>)
        ensures
            old(self)@.position <= old(self)@.steps ==> r == Some(old(self)@.position as usize)
                && final(self)@ == (CursorModel {
                position: old(self)@.position + 1,
                steps: old(self)@.steps,
            }),
            old(self)@.position > old(self)@.steps ==> r is None && final(self)@ == old(self)@,
            final(self)@.position <= final(self)@.steps + 1,
    {
        proof {
            use_type_invariant(&*self);
        }
        if self.exhausted {
            None
        } else {
            let k = self.i;
            if self.i == self.steps {
                self.exhausted = true;
            } else {
                self.i = self.i + 1;
            }
            Some(k)
        }
    }

    /// The arc's step count: one less than the number of points it yields.
    pub fn steps(&self) -> (r: usize)
        ensures
            r as nat == self@.steps,
    {
        self.steps
    }

    /// Whether every point has been yielded.
    pub fn is_exhausted(&self) -> (r: bool)
        ensures
            r == (self@.position > self@.steps),
    {
        proof {
            use_type_invariant(self);
        }
        self.exhausted
    }

    /// Drains the cursor: the indices it has still to yield, in order.
    pub fn collect_remaining(&mut self) -> (r: Vec<usize>)
        ensures
            r@.len() == old(self)@.remaining().len(),
            forall|j: int| 0 <= j < r@.len() ==> #[trigger] r@[j] == old(self)@.position + j,
            final(self)@ == (CursorModel {
                position: old(self)@.steps + 1,
                steps: old(self)@.steps,
            }),
    {
        proof {
            use_type_invariant(&*self);
        }
        let ghost start = self@;
        let mut out: Vec<usize> = Vec::new();
        loop
            invariant
                self@.steps == start.steps,
                start.position <= self@.position <= self@.steps + 1,
                out@.map_values(|k: usize| k as nat) == start.remaining().take(
                    self@.position - start.position,
                ),
            ensures
                self@.steps == start.steps,
                self@.position == start.steps + 1,
                out@.map_values(|k: usize| k as nat) == start.remaining(),
            decreases self@.steps + 1 - self@.position,
        {
            let ghost before = self@;
            match self.next() {
                Some(k) => {
                    let ghost prev = out@;
                    out.push(k);
                    assert(out@.map_values(|k: usize| k as nat) =~= prev.map_values(
                        |k: usize| k as nat,
                    ).push(k as nat));
                    assert(start.remaining()[before.position - start.position] == k as nat);
                    assert(out@.map_values(|k: usize| k as nat) =~= start.remaining().take(
                        self@.position - start.position,
                    ));
                },
                None => {
                    assert(start.remaining().take(self@.position - start.position)
                        =~= start.remaining());
                    break;
                },
            }
        }
        assert(out@.len() == out@.map_values(|k: usize| k as nat).len());
        assert forall|j: int| 0 <= j < out@.len() implies #[trigger] out@[j] == start.position
            + j by {
            assert(out@.map_values(|k: usize| k as nat)[j] == out@[j] as nat);
        }
        out
    }
}

/// A point approximates to itself, whatever the tolerance.
pub fn approximate_point<P>(point: P) -> (r: Vec<P>)
    ensures
        r@ == seq![point],
{
    let mut out: Vec<P> = Vec::new();
    out.push(point);
    out
}

/// A line segment approximates to its start and then its end, whatever the
/// tolerance: the chord is the segment itself.
pub fn approximate_line<P>(start: P, end: P) -> (r: Vec<P>)
    ensures
        r@ == seq![start, end],
{
    let mut out: Vec<P> = Vec::new();
    out.push(start);
    out.push(end);
    out
}

} // verus!
