//! Thresholds of the policy, gathered in one immutable value.

use vstd::prelude::*;

verus! {

/// A non-negative rational number `num / den`.
#[derive(Clone, Copy, Debug, PartialEq, Eq, Structural)]
pub struct Fraction {
    pub num: u32,
    pub den: u32,
}

impl Fraction {
    /// The denominator is not zero.
    pub open spec fn wf(&self) -> bool {
        self.den > 0
    }

    /// The fraction lies in `[0, 1]`, as a smoothing factor must.
    pub open spec fn is_unit(&self) -> bool {
        0 < self.den && self.num <= self.den
    }

    /// Makes `num / den`; `None` exactly when `den` is zero.
    pub fn new(num: u32, den: u32) -> (r: Option<Fraction>)
        ensures
            r == (if den > 0 {
                Some(Fraction { num, den })
            } else {
                None
            }),
    {
        if den > 0 {
            Some(Fraction { num, den })
        } else {
            None
        }
    }

    pub fn is_valid(&self) -> (r: bool)
        ensures
            r == self.wf(),
    {
        self.den > 0
    }

    pub fn is_unit_interval(&self) -> (r: bool)
        ensures
            r == self.is_unit(),
    {
        self.den > 0 && self.num <= self.den
    }
}

/// The options of the policy.
#[derive(Clone, Copy, Debug, PartialEq, Eq, Structural)]
pub struct Config {
    /// Upper bound on the number of charged cells that production accepts.
    pub capacity: usize,
    /// Cells withheld from production in the safe mode.
    pub conservative_reserve: u32,
    /// Cells withheld in the statistic mode while the next asteroid is far.
    pub adaptive_far_reserve: u32,
    /// Cells withheld in the statistic mode once the next asteroid is near.
    pub adaptive_near_reserve: u32,
    /// Share of the sunray interval after which the next sunray counts as imminent.
    pub delivery_imminent_fraction: Fraction,
    /// Share of the asteroid interval below which the next asteroid counts as far.
    pub threat_far_fraction: Fraction,
    /// Weight of the newest interval in the moving average.
    pub ema_alpha: Fraction,
    /// Intervals of each kind that must be seen before the statistic mode is entered.
    pub transition_sample_threshold: u32,
}

impl Config {
    pub open spec fn wf(&self) -> bool {
        &&& self.delivery_imminent_fraction.wf()
        &&& self.threat_far_fraction.wf()
        &&& self.ema_alpha.is_unit()
    }

    /// The standard thresholds for a planet of `capacity` cells.
    pub open spec fn standard(capacity: usize) -> Config {
        Config {
            capacity,
            conservative_reserve: 3,
            adaptive_far_reserve: 1,
            adaptive_near_reserve: 2,
            delivery_imminent_fraction: Fraction { num: 3, den: 4 },
            threat_far_fraction: Fraction { num: 1, den: 2 },
            ema_alpha: Fraction { num: 3, den: 10 },
            transition_sample_threshold: 3,
        }
    }

    pub fn new(capacity: usize) -> (r: Config)
        ensures
            r == Config::standard(capacity),
            r.wf(),
    {
        Config {
            capacity,
            conservative_reserve: 3,
            adaptive_far_reserve: 1,
            adaptive_near_reserve: 2,
            delivery_imminent_fraction: Fraction { num: 3, den: 4 },
            threat_far_fraction: Fraction { num: 1, den: 2 },
            ema_alpha: Fraction { num: 3, den: 10 },
            transition_sample_threshold: 3,
        }
    }

    pub fn is_valid(&self) -> (r: bool)
        ensures
            r == self.wf(),
    {
        self.delivery_imminent_fraction.is_valid() && self.threat_far_fraction.is_valid()
            && self.ema_alpha.is_unit_interval()
    }
}

} // verus!
