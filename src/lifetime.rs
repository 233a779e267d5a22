//! Per-particle lifetime: an accumulator that grows by a fixed increment each
//! frame, and the fade-out transparency it implies.
use crate::random::sample_range;
use vstd::arithmetic::div_mod::{lemma_div_is_ordered, lemma_multiply_divide_lt};
use vstd::prelude::*;

verus! {

/// Smallest increment drawn for a new lifetime (0.1 units).
pub const INC_MIN: u32 = 100;

/// Bound, exclusive, of the increments drawn for a new lifetime (1.0 units).
pub const INC_MAX: u32 = 1000;

/// Smallest maximum drawn for a new lifetime (10 units).
pub const MAX_MIN: u32 = 10000;

/// Bound, exclusive, of the maxima drawn for a new lifetime (100 units).
pub const MAX_MAX: u32 = 100000;

/// Transparency for accumulator `acc` out of `max`: `(1 - acc / max) * 255`
/// rounded to the nearest integer, halves upward, and clamped at zero. A zero
/// `max` gives zero.
pub open spec fn alpha_of(acc: int, max: int) -> int {
    if max <= 0 || acc >= max {
        0
    } else {
        (510 * (max - acc) + max) / (2 * max)
    }
}

/// Timer state of one particle, in thousandths of a unit.
#[derive(Clone, Copy, Debug, PartialEq, Eq, Structural)]
pub struct Lifetime {
    pub acc: u32,
    pub inc: u32,
    pub max: u32,
}

impl Lifetime {
    /// The accumulator has not passed the maximum, and one more increment past
    /// the maximum still fits in a `u32`.
    pub open spec fn wf(&self) -> bool {
        self.acc <= self.max && self.max + self.inc <= u32::MAX
    }

    /// The lifetime after one increment.
    pub open spec fn ticked(self) -> Lifetime {
        Lifetime { acc: (self.acc + self.inc) as u32, ..self }
    }

    /// The lifetime with its accumulator back at zero.
    pub open spec fn reset(self) -> Lifetime {
        Lifetime { acc: 0, ..self }
    }

    /// A fresh lifetime with increment drawn from `[inc_low, inc_high)` and
    /// maximum from `[max_low, max_high)`.
    pub fn random(inc_low: u32, inc_high: u32, max_low: u32, max_high: u32) -> (l: Lifetime)
        requires
            inc_low < inc_high,
            max_low < max_high,
        ensures
            l.acc == 0,
            inc_low <= l.inc < inc_high,
            max_low <= l.max < max_high,
    {
        let inc = sample_range(inc_low, inc_high);
        let max = sample_range(max_low, max_high);
        Lifetime { acc: 0, inc, max }
    }

    /// A fresh lifetime with increment in `[0.1, 1.0)` and maximum in
    /// `[10, 100)` units.
    pub fn new() -> (l: Lifetime)
        ensures
            l.acc == 0,
            INC_MIN <= l.inc < INC_MAX,
            MAX_MIN <= l.max < MAX_MAX,
            l.wf(),
    {
        Lifetime::random(INC_MIN, INC_MAX, MAX_MIN, MAX_MAX)
    }

    /// Adds the increment to the accumulator; true when the new accumulator
    /// has reached the maximum, that is when the particle is due to respawn.
    /// Resetting the accumulator is left to the caller.
    pub fn tick(&mut self) -> (due: bool)
        requires
            old(self).acc + old(self).inc <= u32::MAX,
        ensures
            *final(self) == old(self).ticked(),
            due == (final(self).acc >= final(self).max),
    {
        self.acc = self.acc + self.inc;
        self.acc >= self.max
    }

    /// Transparency for the current accumulator.
    pub fn alpha(&self) -> (a: u8)
        ensures
            a == alpha_of(self.acc as int, self.max as int),
    {
        alpha(self.acc, self.max)
    }
}

/// Transparency for accumulator `acc` out of `max`, as `alpha_of` gives it.
pub fn alpha(acc: u32, max: u32) -> (a: u8)
    ensures
        a == alpha_of(acc as int, max as int),
{
    if max == 0 || acc >= max {
        return 0;
    }
    let num: u64 = 510 * ((max - acc) as u64) + max as u64;
    let den: u64 = 2 * (max as u64);
    proof {
        assert(num < den * 256) by (nonlinear_arith)
            requires
                num == 510 * (max - acc) + max,
                den == 2 * max,
                acc < max,
        ;
        lemma_multiply_divide_lt(num as int, den as int, 256);
    }
    (num / den) as u8
}

/// The transparency never exceeds 255.
pub proof fn lemma_alpha_bounded(acc: int, max: int)
    requires
        0 <= acc,
    ensures
        0 <= alpha_of(acc, max) <= 255,
{
    if max > 0 && acc < max {
        let num = 510 * (max - acc) + max;
        assert(0 <= num < 2 * max * 256) by (nonlinear_arith)
            requires
                num == 510 * (max - acc) + max,
                0 <= acc < max,
        ;
        lemma_multiply_divide_lt(num, 2 * max, 256);
        assert(0 <= num / (2 * max)) by (nonlinear_arith)
            requires
                0 <= num,
                0 < max,
        ;
    }
}

/// For `0 <= acc <= max` with `max > 0`, the transparency is the integer
/// nearest to `255 * (max - acc) / max`, halves rounded up: twice the error,
/// scaled by `max`, lies in `[-max, max)`.
pub proof fn lemma_alpha_is_rounded(acc: int, max: int)
    requires
        0 <= acc <= max,
        0 < max,
    ensures
        -max <= 2 * (255 * (max - acc) - alpha_of(acc, max) * max) < max,
{
    let a = alpha_of(acc, max);
    if acc < max {
        let num = 510 * (max - acc) + max;
        let den = 2 * max;
        assert(a == num / den);
        assert(a * den <= num < a * den + den) by (nonlinear_arith)
            requires
                a == num / den,
                den > 0,
        ;
        assert(-max <= 2 * (255 * (max - acc) - a * max) < max) by (nonlinear_arith)
            requires
                a * den <= num < a * den + den,
                num == 510 * (max - acc) + max,
                den == 2 * max,
        ;
    }
}

/// The transparency does not increase as the accumulator grows, and it is
/// zero once the accumulator reaches the maximum.
pub proof fn lemma_alpha_fades(acc1: int, acc2: int, max: int)
    requires
        0 <= acc1 <= acc2,
    ensures
        alpha_of(acc2, max) <= alpha_of(acc1, max),
        acc2 >= max ==> alpha_of(acc2, max) == 0,
{
    lemma_alpha_bounded(acc1, max);
    if max > 0 && acc2 < max {
        lemma_div_is_ordered(510 * (max - acc2) + max, 510 * (max - acc1) + max, 2 * max);
    }
}

/// The lifetime after `n` increments.
pub open spec fn ticked_n(l: Lifetime, n: nat) -> Lifetime
    decreases n,
{
    if n == 0 {
        l
    } else {
        ticked_n(l, (n - 1) as nat).ticked()
    }
}

/// `n` increments with no reset in between add `n * inc` to the accumulator
/// and leave increment and maximum as they were.
pub proof fn lemma_ticks_accumulate(l: Lifetime, n: nat)
    requires
        l.acc + n * l.inc <= u32::MAX,
    ensures
        ticked_n(l, n).acc == l.acc + n * l.inc,
        ticked_n(l, n).inc == l.inc,
        ticked_n(l, n).max == l.max,
    decreases n,
{
    if n > 0 {
        let m = (n - 1) as nat;
        assert(l.acc + m * l.inc <= l.acc + n * l.inc) by (nonlinear_arith)
            requires
                m + 1 == n,
        ;
        lemma_ticks_accumulate(l, m);
        assert(l.acc + m * l.inc + l.inc == l.acc + n * l.inc) by (nonlinear_arith)
            requires
                m + 1 == n,
        ;
        assert(ticked_n(l, n) == ticked_n(l, m).ticked());
    } else {
        assert(n * l.inc == 0) by (nonlinear_arith)
            requires
                n == 0,
        ;
    }
}

} // verus!
