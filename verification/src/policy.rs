//! The two modes of the planet and the rule that switches between them.

use crate::estimator::EstimateView;
use crate::estimator::IntervalEstimate;
use vstd::prelude::*;

verus! {

/// The mode that decides how many charged cells production must leave alone.
#[derive(Clone, Copy, Debug, PartialEq, Eq, Structural)]
pub enum AIState {
    /// The planet keeps a fixed reserve. Every planet starts here.
    SafeState,
    /// The planet sizes its reserve by the estimated sunray and asteroid intervals.
    StatisticState,
}

/// Both kinds of event were sampled often enough, and asteroids are estimated
/// to come no more often than sunrays.
pub open spec fn may_enter_statistic(
    sunray: EstimateView,
    asteroid: EstimateView,
    threshold: u32,
) -> bool {
    &&& sunray.sample_count >= threshold
    &&& asteroid.sample_count >= threshold
    &&& asteroid.estimate_us >= sunray.estimate_us
}

/// Asteroids are estimated to come more often than sunrays.
pub open spec fn must_leave_statistic(sunray: EstimateView, asteroid: EstimateView) -> bool {
    asteroid.estimate_us < sunray.estimate_us
}

/// The mode that follows `state` under the given estimates.
///
/// Leaving the statistic mode asks for no number of samples.
pub open spec fn next_state(
    state: AIState,
    sunray: EstimateView,
    asteroid: EstimateView,
    threshold: u32,
) -> AIState {
    match state {
        AIState::SafeState => if may_enter_statistic(sunray, asteroid, threshold) {
            AIState::StatisticState
        } else {
            AIState::SafeState
        },
        AIState::StatisticState => if must_leave_statistic(sunray, asteroid) {
            AIState::SafeState
        } else {
            AIState::StatisticState
        },
    }
}

/// Computes the mode that follows `state` under the given estimates.
pub fn reevaluate(
    state: AIState,
    sunray: &IntervalEstimate,
    asteroid: &IntervalEstimate,
    threshold: u32,
) -> (r: AIState)
    ensures
        r == next_state(state, sunray@, asteroid@, threshold),
{
    match state {
        AIState::SafeState => {
            if sunray.sample_count() >= threshold && asteroid.sample_count() >= threshold
                && asteroid.estimate_us() >= sunray.estimate_us() {
                AIState::StatisticState
            } else {
                AIState::SafeState
            }
        },
        AIState::StatisticState => {
            if asteroid.estimate_us() < sunray.estimate_us() {
                AIState::SafeState
            } else {
                AIState::StatisticState
            }
        },
    }
}

} // verus!
