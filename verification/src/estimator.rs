//! Running estimate of the interval between two events of one kind.
//!
//! Intervals are measured in milliseconds and averaged in microseconds, so that
//! the moving average keeps three decimal places of a millisecond in integer
//! arithmetic.

use crate::config::Fraction;
use vstd::arithmetic::div_mod::lemma_fundamental_div_mod_converse;
use vstd::prelude::*;

verus! {

/// Microseconds in one millisecond.
pub const MICROS_PER_MS: i128 = 1000;

/// Largest magnitude of an estimate: the widest gap between two `i64`
/// timestamps, in microseconds.
pub const ESTIMATE_LIMIT: i128 = 18_446_744_073_709_551_615_000;

/// The exponential moving average `alpha * sample + (1 - alpha) * prev`,
/// rounded down to a whole number.
pub open spec fn ema(prev: int, sample: int, alpha: Fraction) -> int {
    (alpha.num * sample + (alpha.den - alpha.num) * prev) / (alpha.den as int)
}

/// The moving average lies between the previous value and the sample.
pub proof fn lemma_ema_between(prev: int, sample: int, alpha: Fraction)
    requires
        alpha.is_unit(),
    ensures
        prev <= sample ==> prev <= ema(prev, sample, alpha) <= sample,
        sample <= prev ==> sample <= ema(prev, sample, alpha) <= prev,
{
    let a = alpha.num as int;
    let d = alpha.den as int;
    let n = a * sample + (d - a) * prev;
    let q = n / d;
    assert(n == d * q + n % d && 0 <= n % d < d) by (nonlinear_arith)
        requires
            d > 0,
            q == n / d,
    ;
    if prev <= sample {
        assert(d * prev <= n <= d * sample) by (nonlinear_arith)
            requires
                0 <= a <= d,
                prev <= sample,
                n == a * sample + (d - a) * prev,
        ;
        assert(prev <= q <= sample) by (nonlinear_arith)
            requires
                d > 0,
                d * prev <= n <= d * sample,
                n == d * q + n % d,
                0 <= n % d < d,
        ;
    }
    if sample <= prev {
        assert(d * sample <= n <= d * prev) by (nonlinear_arith)
            requires
                0 <= a <= d,
                sample <= prev,
                n == a * sample + (d - a) * prev,
        ;
        assert(sample <= q <= prev) by (nonlinear_arith)
            requires
                d > 0,
                d * sample <= n <= d * prev,
                n == d * q + n % d,
                0 <= n % d < d,
        ;
    }
}

/// A value within the limit of an estimate, multiplied by a `u32`, stays
/// well inside the range of `i128`: two such products can be added.
pub proof fn lemma_scaled_fits(x: int, k: int)
    requires
        -ESTIMATE_LIMIT <= x <= ESTIMATE_LIMIT,
        0 <= k <= u32::MAX,
    ensures
        -0x4000_0000_0000_0000_0000_0000_0000_0000 < k * x
            < 0x4000_0000_0000_0000_0000_0000_0000_0000,
        x >= 0 ==> k * x >= 0,
        x <= 0 ==> k * x <= 0,
{
    let lim = ESTIMATE_LIMIT as int;
    assert(-(lim * 0x1_0000_0000) <= k * x <= lim * 0x1_0000_0000 && (x >= 0 ==> k * x >= 0) && (x
        <= 0 ==> k * x <= 0)) by (nonlinear_arith)
        requires
            -lim <= x <= lim,
            0 <= k <= 0x1_0000_0000,
    ;
}

/// Folds `sample` into `prev` with weight `alpha`.
pub fn update_ema(prev: i128, sample: i128, alpha: Fraction) -> (r: i128)
    requires
        alpha.is_unit(),
        -ESTIMATE_LIMIT <= prev <= ESTIMATE_LIMIT,
        -ESTIMATE_LIMIT <= sample <= ESTIMATE_LIMIT,
    ensures
        r == ema(prev as int, sample as int, alpha),
        prev <= sample ==> prev <= r <= sample,
        sample <= prev ==> sample <= r <= prev,
{
    let a: i128 = alpha.num as i128;
    let d: i128 = alpha.den as i128;
    proof {
        lemma_scaled_fits(sample as int, a as int);
        lemma_scaled_fits(prev as int, d - a);
        lemma_ema_between(prev as int, sample as int, alpha);
    }
    let n: i128 = a * sample + (d - a) * prev;
    if n >= 0 {
        n / d
    } else {
        // `/` rounds towards zero: below zero the quotient is one less
        // wherever the division leaves a remainder
        let m: i128 = -n;
        let q: i128 = m / d;
        let rem: i128 = m % d;
        proof {
            assert(m == d * q + rem && 0 <= rem < d) by (nonlinear_arith)
                requires
                    d > 0,
                    q == m / d,
                    rem == m % d,
            ;
        }
        if rem == 0 {
            proof {
                assert(n == (-q) * d + 0) by (nonlinear_arith)
                    requires
                        n == -m,
                        m == d * q + rem,
                        rem == 0,
                ;
                lemma_fundamental_div_mod_converse(n as int, d as int, -q as int, 0);
            }
            -q
        } else {
            proof {
                assert(n == (-q - 1) * d + (d - rem)) by (nonlinear_arith)
                    requires
                        n == -m,
                        m == d * q + rem,
                ;
                lemma_fundamental_div_mod_converse(n as int, d as int, -q - 1, d - rem);
            }
            -q - 1
        }
    }
}

/// What an estimate holds, as mathematical values.
pub struct EstimateView {
    /// The estimated interval in microseconds; zero while `sample_count` is zero.
    pub estimate_us: int,
    /// Time of the latest event in milliseconds; zero before the first event.
    pub last_seen_ms: int,
    /// Whether an event was observed at all.
    pub seen: bool,
    /// Number of intervals that went into the estimate.
    pub sample_count: nat,
}

impl EstimateView {
    pub open spec fn wf(self) -> bool {
        &&& -ESTIMATE_LIMIT <= self.estimate_us <= ESTIMATE_LIMIT
        &&& i64::MIN <= self.last_seen_ms <= i64::MAX
        &&& self.sample_count <= u32::MAX
        &&& (self.sample_count == 0 ==> self.estimate_us == 0)
        &&& (!self.seen ==> self.sample_count == 0 && self.last_seen_ms == 0)
    }

    /// The estimate before any event.
    pub open spec fn fresh() -> EstimateView {
        EstimateView { estimate_us: 0, last_seen_ms: 0, seen: false, sample_count: 0 }
    }

    /// The estimate after an event at `now_ms`.
    ///
    /// The first event only records its time. The second one makes the interval
    /// between the two the estimate. Every later one folds its interval into the
    /// estimate with weight `alpha`. The count stops at `u32::MAX`.
    pub open spec fn observe(self, now_ms: int, alpha: Fraction) -> EstimateView {
        if !self.seen {
            EstimateView { last_seen_ms: now_ms, seen: true, ..self }
        } else {
            let sample = (now_ms - self.last_seen_ms) * MICROS_PER_MS;
            EstimateView {
                estimate_us: if self.sample_count == 0 {
                    sample
                } else {
                    ema(self.estimate_us, sample, alpha)
                },
                last_seen_ms: now_ms,
                seen: true,
                sample_count: if self.sample_count < u32::MAX {
                    self.sample_count + 1
                } else {
                    self.sample_count
                },
            }
        }
    }

    /// Time since the latest event, in milliseconds.
    pub open spec fn elapsed_ms(self, now_ms: int) -> int {
        now_ms - self.last_seen_ms
    }
}

/// An event at a valid time keeps a valid estimate valid.
pub proof fn lemma_observe_wf(e: EstimateView, now_ms: int, alpha: Fraction)
    requires
        e.wf(),
        alpha.is_unit(),
        i64::MIN <= now_ms <= i64::MAX,
    ensures
        e.observe(now_ms, alpha).wf(),
{
    if e.seen {
        let sample = (now_ms - e.last_seen_ms) * MICROS_PER_MS;
        lemma_ema_between(e.estimate_us, sample, alpha);
    }
}

/// While time does not run backwards, an estimate never becomes negative.
pub proof fn lemma_observe_non_negative(e: EstimateView, now_ms: int, alpha: Fraction)
    requires
        alpha.is_unit(),
        0 <= e.estimate_us,
        e.last_seen_ms <= now_ms,
    ensures
        0 <= e.observe(now_ms, alpha).estimate_us,
{
    if e.seen {
        let sample = (now_ms - e.last_seen_ms) * MICROS_PER_MS;
        lemma_ema_between(e.estimate_us, sample, alpha);
    }
}

/// Interval estimate for one kind of event.
#[derive(Clone, Copy, Debug)]
pub struct IntervalEstimate {
    estimate_us: i128,
    last_seen_ms: i64,
    seen: bool,
    sample_count: u32,
}

impl View for IntervalEstimate {
    type V = EstimateView;

    closed spec fn view(&self) -> EstimateView {
        EstimateView {
            estimate_us: self.estimate_us as int,
            last_seen_ms: self.last_seen_ms as int,
            seen: self.seen,
            sample_count: self.sample_count as nat,
        }
    }
}

impl IntervalEstimate {
    /// Every estimate is valid at all times.
    #[verifier::type_invariant]
    pub open spec fn inv(&self) -> bool {
        self@.wf()
    }

    pub fn new() -> (r: IntervalEstimate)
        ensures
            r@ == EstimateView::fresh(),
    {
        IntervalEstimate { estimate_us: 0, last_seen_ms: 0, seen: false, sample_count: 0 }
    }

    /// Takes note of an event at `now_ms`.
    pub fn observe(&mut self, now_ms: i64, alpha: Fraction)
        requires
            alpha.is_unit(),
        ensures
            final(self)@ == old(self)@.observe(now_ms as int, alpha),
            final(self)@.wf(),
    {
        proof {
            use_type_invariant(&*self);
            lemma_observe_wf(self@, now_ms as int, alpha);
        }
        if !self.seen {
            *self = IntervalEstimate {
                estimate_us: self.estimate_us,
                last_seen_ms: now_ms,
                seen: true,
                sample_count: self.sample_count,
            };
        } else {
            let sample: i128 = (now_ms as i128 - self.last_seen_ms as i128) * MICROS_PER_MS;
            let estimate_us: i128 = if self.sample_count == 0 {
                sample
            } else {
                update_ema(self.estimate_us, sample, alpha)
            };
            let sample_count: u32 = if self.sample_count < u32::MAX {
                self.sample_count + 1
            } else {
                self.sample_count
            };
            *self = IntervalEstimate { estimate_us, last_seen_ms: now_ms, seen: true, sample_count };
        }
    }

    /// The estimated interval in microseconds.
    pub fn estimate_us(&self) -> (r: i128)
        ensures
            r == self@.estimate_us,
    {
        self.estimate_us
    }

    /// Time of the latest event in milliseconds.
    pub fn last_seen_ms(&self) -> (r: i64)
        ensures
            r == self@.last_seen_ms,
    {
        self.last_seen_ms
    }

    /// Whether an event was observed at all.
    pub fn seen(&self) -> (r: bool)
        ensures
            r == self@.seen,
    {
        self.seen
    }

    /// Number of intervals that went into the estimate.
    pub fn sample_count(&self) -> (r: u32)
        ensures
            r == self@.sample_count,
    {
        self.sample_count
    }
}

} // verus!
