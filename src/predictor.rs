//! The prediction engine of one display: the timing state it has built from
//! the refresh callbacks, one update per callback, one read per query.
use vstd::prelude::*;

use crate::state::FrameState;

verus! {

/// Timing state of one display, always well-formed.
#[derive(Clone, Copy, Debug, PartialEq, Eq)]
pub struct FramePredictor {
    state: FrameState,
}

impl View for FramePredictor {
    type V = FrameState;

    closed spec fn view(&self) -> FrameState {
        self.state
    }
}

impl FramePredictor {
    #[verifier::type_invariant]
    spec fn inv(&self) -> bool {
        self.state.wf()
    }

    /// A predictor that has seen no callback yet.
    pub fn new() -> (r: FramePredictor)
        ensures
            r@ == FrameState::spec_empty(),
    {
        FramePredictor { state: FrameState::empty() }
    }

    /// Records a refresh callback that reports `reported` as the time of the
    /// upcoming refresh; returns the state it replaced.
    pub fn on_refresh(&mut self, reported: u128) -> (r: FrameState)
        ensures
            r == old(self)@,
            final(self)@ == old(self)@.spec_after_refresh(reported),
    {
        proof {
            use_type_invariant(&*self);
        }
        let prev = self.state;
        self.state = prev.after_refresh(reported);
        prev
    }

    /// A copy of the current state.
    pub fn snapshot(&self) -> (r: FrameState)
        ensures
            r == self@,
            r.wf(),
    {
        proof {
            use_type_invariant(self);
        }
        self.state
    }

    /// Nanoseconds from `now` until the next refresh, predicted from the
    /// current state.
    pub fn time_until_next_frame_at(&self, now: u128) -> (r: u64)
        ensures
            r == self@.spec_estimate(now),
    {
        proof {
            use_type_invariant(self);
        }
        self.state.estimate(now)
    }
}

} // verus!
