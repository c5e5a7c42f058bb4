//! The timing state kept for one display, how a refresh callback updates it,
//! and how the time until the next refresh is extrapolated from it.
use vstd::arithmetic::div_mod::{lemma_mod_pos_bound, lemma_small_mod};
use vstd::prelude::*;

verus! {

/// Largest value of a `u64`, as a mathematical integer.
pub open spec fn u64_max() -> int {
    0xffff_ffff_ffff_ffff
}

/// `x`, saturated to what a `u64` can hold.
pub open spec fn saturate_u64(x: int) -> int {
    if x > u64_max() {
        u64_max()
    } else {
        x
    }
}

/// Largest value of a `u128`, as a mathematical integer.
pub open spec fn u128_max() -> int {
    0xffff_ffff_ffff_ffff_ffff_ffff_ffff_ffff
}

/// `x`, saturated to what a `u128` can hold.
pub open spec fn clamp_u128(x: int) -> int {
    if x < 0 {
        0
    } else if x > u128_max() {
        u128_max()
    } else {
        x
    }
}

/// The absolute time of a refresh that a callback announces `offset`
/// nanoseconds after `now`, saturated at both ends of the clock.
pub fn absolute_refresh_time(now: u128, offset: i64) -> (r: u128)
    ensures
        r == clamp_u128(now + offset),
{
    if offset >= 0 {
        let ahead: u128 = offset as u128;
        if now > u128::MAX - ahead {
            u128::MAX
        } else {
            now + ahead
        }
    } else {
        let behind: u128 = (-(offset as i128)) as u128;
        if now < behind {
            0
        } else {
            now - behind
        }
    }
}

/// Timing state of one display. All times are nanoseconds, on the same
/// absolute clock as the times passed to queries.
#[derive(Clone, Copy, Debug, PartialEq, Eq)]
pub struct FrameState {
    /// Predicted time of the next refresh, once any callback has arrived.
    pub next_frame: Option<u128>,
    /// Length of one frame, once two callbacks have arrived.
    pub frame_time: Option<u64>,
}

impl FrameState {
    /// An interval is only ever derived from two reported refresh times, so
    /// it never exists without a refresh time.
    pub open spec fn wf(self) -> bool {
        self.frame_time.is_some() ==> self.next_frame.is_some()
    }

    /// The state after a callback that reports `reported` as the next
    /// refresh: the interval is the distance from the previous report,
    /// clamped at zero for a report that goes backwards.
    pub open spec fn spec_after_refresh(self, reported: u128) -> FrameState {
        match self.next_frame {
            Some(prev) => FrameState {
                next_frame: Some(reported),
                frame_time: Some(
                    if reported >= prev {
                        saturate_u64(reported - prev) as u64
                    } else {
                        0u64
                    },
                ),
            },
            None => FrameState { next_frame: Some(reported), frame_time: self.frame_time },
        }
    }

    /// Nanoseconds from `now` until the next refresh, as predicted from this
    /// state; zero where no prediction can be made.
    ///
    /// Once the predicted refresh has passed, whole intervals are counted
    /// forward from it and the time left to the next boundary is returned.
    pub open spec fn spec_estimate(self, now: u128) -> int {
        match self.next_frame {
            None => 0,
            Some(next) => if next > now {
                saturate_u64(next - now)
            } else {
                match self.frame_time {
                    Some(interval) => if interval == 0 {
                        0
                    } else {
                        interval - (now - next) % (interval as int)
                    },
                    None => 0,
                }
            },
        }
    }

    /// The state of a display from which no callback has arrived.
    pub open spec fn spec_empty() -> FrameState {
        FrameState { next_frame: None, frame_time: None }
    }

    /// The state of a display from which no callback has arrived.
    pub fn empty() -> (r: FrameState)
        ensures
            r == FrameState::spec_empty(),
            r.wf(),
    {
        FrameState { next_frame: None, frame_time: None }
    }

    /// Applies one refresh callback that reports `reported` as the time of
    /// the upcoming refresh.
    pub fn after_refresh(&self, reported: u128) -> (r: FrameState)
        requires
            self.wf(),
        ensures
            r == self.spec_after_refresh(reported),
            r.wf(),
    {
        match self.next_frame {
            Some(prev) => {
                let interval: u64 = if reported >= prev {
                    let d: u128 = reported - prev;
                    if d > u64::MAX as u128 {
                        u64::MAX
                    } else {
                        d as u64
                    }
                } else {
                    0
                };
                FrameState { next_frame: Some(reported), frame_time: Some(interval) }
            },
            None => FrameState { next_frame: Some(reported), frame_time: self.frame_time },
        }
    }

    /// Nanoseconds from `now` until the next refresh predicted by this state.
    pub fn estimate(&self, now: u128) -> (r: u64)
        requires
            self.wf(),
        ensures
            r as int == self.spec_estimate(now),
    {
        match self.next_frame {
            None => 0,
            Some(next) => {
                if next > now {
                    let d: u128 = next - now;
                    if d > u64::MAX as u128 {
                        u64::MAX
                    } else {
                        d as u64
                    }
                } else {
                    match self.frame_time {
                        Some(interval) => {
                            if interval == 0 {
                                0
                            } else {
                                let elapsed: u128 = now - next;
                                let into_frame: u128 = elapsed % (interval as u128);
                                assert(into_frame < interval);
                                interval - (into_frame as u64)
                            }
                        },
                        None => 0,
                    }
                }
            },
        }
    }
}

/// Before any callback has arrived, the estimate is zero at every point in
/// time.
pub proof fn lemma_no_report_estimates_zero(now: u128)
    ensures
        FrameState::spec_empty().spec_estimate(now) == 0,
{
}

/// After a single callback that reports `t`, the estimate is the time left
/// until `t` while `t` lies ahead, and zero once it has passed: one report
/// gives no interval to extrapolate with.
pub proof fn lemma_single_report(t: u128, now: u128)
    ensures
        ({
            let s = FrameState::spec_empty().spec_after_refresh(t);
            &&& s.wf()
            &&& s.frame_time.is_none()
            &&& now < t ==> s.spec_estimate(now) == saturate_u64(t - now)
            &&& now < t && t - now <= u64_max() ==> s.spec_estimate(now) == t - now
            &&& now >= t ==> s.spec_estimate(now) == 0
        }),
{
}

/// After callbacks reporting `t1` and then a later `t2`, the interval is
/// `t2 - t1`; past `t2`, with no further callback, the estimate is the time
/// left until `t2` plus one interval, so it falls as `now` advances towards
/// that point, and it stays above zero.
pub proof fn lemma_two_reports_extrapolate(t1: u128, t2: u128, a: u128, b: u128)
    requires
        t1 < t2,
        t2 - t1 <= u64_max(),
        t2 <= a <= b,
        b < t2 + (t2 - t1),
    ensures
        ({
            let s = FrameState::spec_empty().spec_after_refresh(t1).spec_after_refresh(t2);
            &&& s.wf()
            &&& s.next_frame == Some(t2)
            &&& s.frame_time == Some((t2 - t1) as u64)
            &&& s.spec_estimate(a) == t2 + (t2 - t1) - a
            &&& s.spec_estimate(b) == t2 + (t2 - t1) - b
            &&& s.spec_estimate(b) <= s.spec_estimate(a)
            &&& 0 < s.spec_estimate(b)
        }),
{
    let interval: int = t2 - t1;
    lemma_small_mod((a - t2) as nat, interval as nat);
    lemma_small_mod((b - t2) as nat, interval as nat);
}

/// A callback whose report lies before the previous one sets the interval to
/// zero, never to a negative length.
pub proof fn lemma_regressive_report_clamps(s: FrameState, reported: u128)
    requires
        s.wf(),
        s.next_frame.is_some(),
        reported < s.next_frame.unwrap(),
    ensures
        s.spec_after_refresh(reported).frame_time == Some(0u64),
        s.spec_after_refresh(reported).wf(),
{
}

/// From every well-formed state, whatever callbacks it has seen, the
/// estimate is never negative, and once the predicted refresh has passed it
/// is at most one interval.
pub proof fn lemma_estimate_bounds(s: FrameState, now: u128)
    requires
        s.wf(),
    ensures
        0 <= s.spec_estimate(now) <= u64_max(),
        s.next_frame.is_some() && s.next_frame.unwrap() <= now && s.frame_time.is_some()
            ==> s.spec_estimate(now) <= s.frame_time.unwrap(),
{
    if let Some(next) = s.next_frame {
        if next <= now {
            if let Some(interval) = s.frame_time {
                if interval > 0 {
                    let x: int = (now - next) % (interval as int);
                    assert(0 <= x < interval) by {
                        lemma_mod_pos_bound((now - next) as int, interval as int);
                    }
                }
            }
        }
    }
}

} // verus!
