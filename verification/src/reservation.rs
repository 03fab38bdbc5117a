//! How many charged cells production must leave alone, and whether a request
//! to produce is admitted.

use crate::config::Config;
use crate::config::Fraction;
use crate::error::PlanetError;
use crate::estimator::lemma_scaled_fits;
use crate::estimator::EstimateView;
use crate::estimator::IntervalEstimate;
use crate::estimator::MICROS_PER_MS;
use crate::policy::AIState;
use vstd::prelude::*;

verus! {

/// The time since the latest event, set against `fraction` of the estimated
/// interval. Both sides are multiplied by the denominator and brought to
/// microseconds, so that they compare as the time and the share do.
pub open spec fn elapsed_side(e: EstimateView, now_ms: int, fraction: Fraction) -> int {
    e.elapsed_ms(now_ms) * MICROS_PER_MS * fraction.den
}

/// `fraction` of the estimated interval, on the scale of `elapsed_side`.
pub open spec fn share_side(e: EstimateView, fraction: Fraction) -> int {
    fraction.num * e.estimate_us
}

/// The next asteroid is judged far: less than `fraction` of the estimated
/// interval has passed since the latest one.
pub open spec fn asteroid_is_far(asteroid: EstimateView, now_ms: int, fraction: Fraction) -> bool {
    elapsed_side(asteroid, now_ms, fraction) < share_side(asteroid, fraction)
}

/// The next sunray is judged imminent: more than `fraction` of the estimated
/// interval has passed since the latest one.
pub open spec fn sunray_is_imminent(sunray: EstimateView, now_ms: int, fraction: Fraction) -> bool {
    elapsed_side(sunray, now_ms, fraction) > share_side(sunray, fraction)
}

/// The reserve of the statistic mode: the far or the near reserve, one cell
/// less while a sunray is imminent, and never less than zero.
pub open spec fn statistic_reserve(
    config: Config,
    sunray: EstimateView,
    asteroid: EstimateView,
    now_ms: int,
) -> nat {
    let base = if asteroid_is_far(asteroid, now_ms, config.threat_far_fraction) {
        config.adaptive_far_reserve
    } else {
        config.adaptive_near_reserve
    };
    if sunray_is_imminent(sunray, now_ms, config.delivery_imminent_fraction) && base > 0 {
        (base - 1) as nat
    } else {
        base as nat
    }
}

/// The reserve that holds in mode `state` at time `now_ms`.
pub open spec fn reserve(
    state: AIState,
    config: Config,
    sunray: EstimateView,
    asteroid: EstimateView,
    now_ms: int,
) -> nat {
    match state {
        AIState::SafeState => config.conservative_reserve as nat,
        AIState::StatisticState => statistic_reserve(config, sunray, asteroid, now_ms),
    }
}

/// The answer to a request to produce with `charged` cells charged: refused
/// with none charged, refused as an invalid state above `capacity`, admitted
/// above `reserve`, refused otherwise.
pub open spec fn admission(charged: nat, capacity: nat, reserve: nat) -> Result<(), PlanetError> {
    if charged == 0 {
        Err(PlanetError::InsufficientCharge)
    } else if charged > capacity {
        Err(PlanetError::InvalidState)
    } else if charged > reserve {
        Ok(())
    } else {
        Err(PlanetError::InsufficientCharge)
    }
}

/// Computes `elapsed_side`.
fn compute_elapsed_side(e: &IntervalEstimate, now_ms: i64, fraction: Fraction) -> (r: i128)
    ensures
        r == elapsed_side(e@, now_ms as int, fraction),
{
    let elapsed: i128 = now_ms as i128 - e.last_seen_ms() as i128;
    let scaled: i128 = elapsed * MICROS_PER_MS;
    proof {
        lemma_scaled_fits(scaled as int, fraction.den as int);
        assert(scaled * fraction.den == fraction.den * scaled) by (nonlinear_arith);
    }
    scaled * (fraction.den as i128)
}

/// Computes `share_side`.
fn compute_share_side(e: &IntervalEstimate, fraction: Fraction) -> (r: i128)
    ensures
        r == share_side(e@, fraction),
{
    proof {
        use_type_invariant(e);
        lemma_scaled_fits(e@.estimate_us, fraction.num as int);
    }
    (fraction.num as i128) * e.estimate_us()
}

/// Computes the reserve of the statistic mode at `now_ms`.
pub fn compute_statistic_reserve(
    config: &Config,
    sunray: &IntervalEstimate,
    asteroid: &IntervalEstimate,
    now_ms: i64,
) -> (r: u32)
    ensures
        r == statistic_reserve(*config, sunray@, asteroid@, now_ms as int),
{
    let far = compute_elapsed_side(asteroid, now_ms, config.threat_far_fraction)
        < compute_share_side(asteroid, config.threat_far_fraction);
    let imminent = compute_elapsed_side(sunray, now_ms, config.delivery_imminent_fraction)
        > compute_share_side(sunray, config.delivery_imminent_fraction);
    let base: u32 = if far {
        config.adaptive_far_reserve
    } else {
        config.adaptive_near_reserve
    };
    if imminent && base > 0 {
        base - 1
    } else {
        base
    }
}

/// Computes the reserve that holds in mode `state` at `now_ms`.
pub fn compute_reserve(
    state: AIState,
    config: &Config,
    sunray: &IntervalEstimate,
    asteroid: &IntervalEstimate,
    now_ms: i64,
) -> (r: u32)
    ensures
        r == reserve(state, *config, sunray@, asteroid@, now_ms as int),
{
    match state {
        AIState::SafeState => config.conservative_reserve,
        AIState::StatisticState => compute_statistic_reserve(config, sunray, asteroid, now_ms),
    }
}

/// Decides a request to produce with `charged` cells charged.
pub fn decide_admission(charged: usize, capacity: usize, reserve: u32) -> (r: Result<(), PlanetError>)
    ensures
        r == admission(charged as nat, capacity as nat, reserve as nat),
{
    if charged == 0 {
        Err(PlanetError::InsufficientCharge)
    } else if charged > capacity {
        Err(PlanetError::InvalidState)
    } else if charged as u128 > reserve as u128 {
        Ok(())
    } else {
        Err(PlanetError::InsufficientCharge)
    }
}

} // verus!
