//! The remote-health low-pass filter: a rolling window of recent remote
//! outcomes that biases hybrid ordering toward local execution while the
//! remote service looks degraded.

use vstd::prelude::*;

verus! {

/// Number of `false` (failure) entries in a window of outcomes.
pub open spec fn count_failures(s: Seq<bool>) -> int
    decreases s.len(),
{
    if s.len() == 0 {
        0
    } else {
        count_failures(s.drop_last()) + if s.last() {
            0int
        } else {
            1int
        }
    }
}


/// A rolling window over the outcomes of recent remote attempts, newest
/// last; `true` records a success. Reads and writes are cheap — the window
/// is bounded — so every hybrid decision can consult the filter.
pub struct LowPassFilter {
    window_capacity: usize,
    window: Vec<bool>,
}

impl LowPassFilter {
    /// How many recent outcomes the window retains.
    pub closed spec fn spec_window_capacity(self) -> usize {
        self.window_capacity
    }

    /// The retained outcomes, oldest first.
    pub closed spec fn spec_window(self) -> Seq<bool> {
        self.window@
    }

    /// The filter's invariant: the window holds at least one slot and never
    /// more entries than its capacity.
    pub closed spec fn wf(self) -> bool {
        &&& self.window_capacity >= 1
        &&& self.window@.len() <= self.window_capacity
    }

    /// An empty filter retaining up to `window_capacity` outcomes.
    pub fn new(window_capacity: usize) -> (r: LowPassFilter)
        requires
            window_capacity >= 1,
        ensures
            r.wf(),
            r.spec_window_capacity() == window_capacity,
            r.spec_window().len() == 0,
    {
        LowPassFilter { window_capacity, window: Vec::new() }
    }

    /// Record the outcome of one remote attempt. The newest outcome enters
    /// the window; once the window is full, the oldest leaves.
    pub fn observe(&mut self, success: bool)
        requires
            old(self).wf(),
        ensures
            final(self).wf(),
            final(self).spec_window_capacity() == old(self).spec_window_capacity(),
            final(self).spec_window() == if old(self).spec_window().len() < old(self).spec_window_capacity() {
                old(self).spec_window().push(success)
            } else {
                old(self).spec_window().skip(1).push(success)
            },
    {
        if self.window.len() < self.window_capacity {
            self.window.push(success);
        } else {
            let _oldest = self.window.remove(0);
            self.window.push(success);
            proof {
                assert(self.window@ =~= old(self).spec_window().skip(1).push(success));
            }
        }
    }

    /// The filter currently prefers local execution: a strict majority of
    /// the retained outcomes are failures. An empty window prefers remote.
    pub fn should_prefer_local(&self) -> (r: bool)
        requires
            self.wf(),
        ensures
            r == (2 * count_failures(self.spec_window()) > self.spec_window().len()),
    {
        let mut failures: usize = 0;
        let mut i: usize = 0;
        while i < self.window.len()
            invariant
                i <= self.window@.len(),
                failures == count_failures(self.window@.take(i as int)),
                failures <= i,
            decreases self.window@.len() - i,
        {
            proof {
                assert(self.window@.take(i + 1).drop_last() =~= self.window@.take(i as int));
                assert(self.window@.take(i + 1).last() == self.window@[i as int]);
            }
            if !self.window[i] {
                failures = failures + 1;
            }
            i = i + 1;
        }
        proof {
            assert(self.window@.take(self.window@.len() as int) =~= self.window@);
        }
        failures > self.window.len() - failures
    }
}

} // verus!
