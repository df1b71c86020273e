//! Progress accounting for one batch run.
//!
//! Progress is modelled as an exact pair `done / total`. Every file advances
//! `done` by one, whatever its outcome, so the fraction is monotonically
//! non-decreasing over the run; at the very end the run force-completes the
//! state, so the fraction is exactly one even for an empty file list. An
//! observer renders the fraction from the two integers, so no accumulated
//! floating-point drift can appear in the state itself.

use vstd::prelude::*;

verus! {

/// How many of `total` files a run has accounted for.
pub struct ProgressState {
    done: usize,
    total: usize,
}

impl ProgressState {
    /// Files accounted for so far (success, skip and failure all count).
    pub closed spec fn spec_done(self) -> nat {
        self.done as nat
    }

    /// The number of files the run set out to process.
    pub closed spec fn spec_total(self) -> nat {
        self.total as nat
    }

    /// `done` never exceeds `total`: the fraction stays within `[0, 1]`.
    pub closed spec fn wf(self) -> bool {
        self.done <= self.total
    }

    /// The fraction is exactly one.
    pub open spec fn is_complete(self) -> bool {
        self.spec_done() == self.spec_total()
    }

    /// A fresh state: nothing done yet, out of `total` files.
    pub fn new(total: usize) -> (r: ProgressState)
        ensures
            r.wf(),
            r.spec_done() == 0,
            r.spec_total() == total,
    {
        ProgressState { done: 0, total }
    }

    /// Accounts one more file. Progress never decreases.
    pub fn record_one(&mut self)
        requires
            old(self).wf(),
            old(self).spec_done() < old(self).spec_total(),
        ensures
            final(self).wf(),
            final(self).spec_done() == old(self).spec_done() + 1,
            final(self).spec_total() == old(self).spec_total(),
            final(self).spec_done() >= old(self).spec_done(),
    {
        self.done = self.done + 1;
    }

    /// Force-completes the run: the fraction becomes exactly one, masking
    /// any drift an approximate observer may have accumulated. Progress
    /// never decreases.
    pub fn finish(&mut self)
        requires
            old(self).wf(),
        ensures
            final(self).wf(),
            final(self).is_complete(),
            final(self).spec_total() == old(self).spec_total(),
            final(self).spec_done() >= old(self).spec_done(),
    {
        self.done = self.total;
    }

    /// The numerator and denominator of the progress fraction, for an
    /// observer to render.
    pub fn parts(&self) -> (r: (usize, usize))
        ensures
            r.0 == self.spec_done(),
            r.1 == self.spec_total(),
    {
        (self.done, self.total)
    }
}

} // verus!
