//! Per-display prediction of the next vertical refresh.
//!
//! Hardware callbacks feed a [`FramePredictor`] with the time of each
//! upcoming refresh; callers on any thread ask how long remains until the
//! next one, at a point in time they supply.
use vstd::prelude::*;

pub mod predictor;
pub mod registry;
pub mod state;

pub use predictor::FramePredictor;
pub use registry::DisplayRegistry;
pub use state::FrameState;

verus! {

/// Identifier of a physical display.
pub type DisplayID = u32;

/// Nanoseconds from `now` until the next refresh of `display`, and whether
/// this call created the display's predictor.
///
/// The predictor is created, with no callback seen, exactly when the
/// registry holds none for `display`; its estimate is then zero. The caller
/// told so is the one to start the display's hardware link (and to call
/// [`DisplayRegistry::discard_failed`] if that fails). Otherwise the estimate
/// comes from the stored state, which the query leaves unchanged.
pub fn time_until_next_frame(registry: &mut DisplayRegistry, display: DisplayID, now: u128) -> (r: (
    u64,
    bool,
))
    ensures
        r.1 == !old(registry)@.contains_key(display),
        r.1 ==> final(registry)@ == old(registry)@.insert(display, final(registry)@[display]),
        r.1 ==> final(registry)@[display]@ == FrameState::spec_empty(),
        !r.1 ==> final(registry)@ == old(registry)@,
        r.0 == final(registry)@[display]@.spec_estimate(now),
        r.1 ==> r.0 == 0,
        !r.1 ==> r.0 == old(registry)@[display]@.spec_estimate(now),
{
    let (predictor, created) = registry.get_or_create(display);
    (predictor.time_until_next_frame_at(now), created)
}

} // verus!
