//! The failure ratio of a window: the comparison with a threshold, decided
//! exactly, and the ratio in hundredths of a percent for display.

use vstd::prelude::*;
use vstd::arithmetic::div_mod::{
    lemma_div_multiples_vanish,
    lemma_fundamental_div_mod,
    lemma_mod_bound,
    lemma_mod_multiples_basic,
};
use crate::outcome::WindowResult;
use crate::text::{decimal, digit_char, push_decimal};

verus! {

/// The largest ratio, 100 percent, in hundredths of a percent.
pub const FULL_RATIO: u64 = 10000;

/// `n / d` rounded to the nearest whole number; a value exactly half way
/// between two goes to the even one.
pub open spec fn round_half_even(n: nat, d: nat) -> nat
    recommends
        d > 0,
{
    let q = n / d;
    let r = n % d;
    if 2 * r < d {
        q
    } else if 2 * r > d {
        q + 1
    } else if q % 2 == 0 {
        q
    } else {
        q + 1
    }
}

/// The failure ratio `failures / total * 100`, in hundredths of a percent,
/// rounded to the nearest hundredth. A window in which no attempt
/// completed has ratio 0.
pub open spec fn ratio_hundredths(result: WindowResult) -> nat {
    if result.total() == 0 {
        0
    } else {
        round_half_even(result.failures as nat * 10000, result.total())
    }
}

/// Whether the failure ratio `failures / total * 100` is strictly above
/// `threshold_percent`. Both sides are multiplied by `total`, so nothing is
/// rounded. A window in which no attempt completed is never above.
pub open spec fn exceeds_threshold(result: WindowResult, threshold_percent: u64) -> bool {
    result.total() > 0 && result.failures as nat * 100 > threshold_percent as nat * result.total()
}

/// The ratio lies between 0 and 100 percent.
pub proof fn lemma_ratio_in_range(result: WindowResult)
    ensures
        0 <= ratio_hundredths(result) <= FULL_RATIO,
        result.total() == 0 ==> ratio_hundredths(result) == 0,
{
    let t = result.total();
    if t > 0 {
        let n = result.failures as nat * 10000;
        let q = n / t;
        let r = n % t;
        lemma_fundamental_div_mod(n as int, t as int);
        lemma_mod_bound(n as int, t as int);
        assert(n <= 10000 * t) by (nonlinear_arith)
            requires
                n == result.failures as nat * 10000,
                result.failures <= t,
        ;
        if q >= 10000 {
            assert(t * q >= t * 10000) by (nonlinear_arith)
                requires
                    q >= 10000,
                    t > 0,
            ;
            assert(q == 10000 && r == 0) by (nonlinear_arith)
                requires
                    n == t * q + r,
                    n <= 10000 * t,
                    q >= 10000,
                    t > 0,
                    r >= 0,
            ;
        }
    }
}

/// The displayed ratio is the hundredth nearest to the exact one: it is off
/// by at most half a hundredth.
pub proof fn lemma_ratio_is_nearest(result: WindowResult)
    ensures
        2 * (ratio_hundredths(result) * result.total() - result.failures * 10000)
            <= result.total(),
        2 * (result.failures * 10000 - ratio_hundredths(result) * result.total())
            <= result.total(),
{
    let t = result.total();
    if t > 0 {
        let n = result.failures as nat * 10000;
        let q = n / t;
        let r = n % t;
        lemma_fundamental_div_mod(n as int, t as int);
        lemma_mod_bound(n as int, t as int);
        assert((q + 1) * t == q * t + t) by (nonlinear_arith);
        assert(q * t == t * q) by (nonlinear_arith);
    }
}

/// A window without failures has ratio 0, and a window without successes
/// in which something completed has ratio 100 percent.
pub proof fn lemma_ratio_extremes(result: WindowResult)
    ensures
        result.failures == 0 ==> ratio_hundredths(result) == 0,
        result.successes == 0 && result.failures > 0 ==> ratio_hundredths(result) == FULL_RATIO,
{
    let t = result.total();
    if result.failures == 0 && t > 0 {
        assert(0nat / t == 0 && 0nat % t == 0) by (nonlinear_arith)
            requires
                t > 0,
        ;
    }
    if result.successes == 0 && result.failures > 0 {
        let n = result.failures as nat * 10000;
        assert(n == 10000 * t) by (nonlinear_arith)
            requires
                n == result.failures as nat * 10000,
                t == result.failures,
        ;
        lemma_div_multiples_vanish(10000, t as int);
        lemma_mod_multiples_basic(10000, t as int);
    }
}

impl WindowResult {
    /// The failure ratio in hundredths of a percent.
    pub fn failure_ratio(&self) -> (hundredths: u64)
        ensures
            hundredths == ratio_hundredths(*self),
            hundredths <= FULL_RATIO,
    {
        proof {
            lemma_ratio_in_range(*self);
        }
        let total: u128 = self.successes as u128 + self.failures as u128;
        if total == 0 {
            return 0;
        }
        let scaled: u128 = self.failures as u128 * 10000;
        let q: u128 = scaled / total;
        let r: u128 = scaled % total;
        let rounded: u128 = if 2 * r < total {
            q
        } else if 2 * r > total {
            q + 1
        } else if q % 2 == 0 {
            q
        } else {
            q + 1
        };
        rounded as u64
    }

    /// Whether the failure ratio is strictly above `threshold_percent`.
    pub fn exceeds(&self, threshold_percent: u64) -> (above: bool)
        ensures
            above == exceeds_threshold(*self, threshold_percent),
    {
        let total: u128 = self.successes as u128 + self.failures as u128;
        if threshold_percent >= 100 {
            // No ratio is above 100 percent.
            assert(self.failures as nat * 100 <= threshold_percent as nat * self.total())
                by (nonlinear_arith)
                requires
                    self.failures <= self.total(),
                    threshold_percent >= 100,
            ;
            return false;
        }
        assert(threshold_percent as int * total as int <= 100 * 0x1_ffff_ffff_ffff_fffe)
            by (nonlinear_arith)
            requires
                0 <= threshold_percent as int <= 100,
                0 <= total as int <= 0x1_ffff_ffff_ffff_fffe,
        ;
        total > 0 && self.failures as u128 * 100 > threshold_percent as u128 * total
    }
}

/// A ratio in hundredths of a percent as text with two decimals, such as
/// `12.50` for 1250.
pub open spec fn ratio_text(hundredths: nat) -> Seq<char> {
    decimal(hundredths / 100).push('.').push(digit_char((hundredths / 10) % 10)).push(
        digit_char(hundredths % 10),
    )
}

/// Appends a ratio with two decimals to `s`.
pub fn push_ratio(s: &mut String, hundredths: u64)
    ensures
        final(s)@ == old(s)@ + ratio_text(hundredths as nat),
{
    push_decimal(s, hundredths / 100);
    s.push('.');
    let tenths: u8 = ((hundredths / 10) % 10) as u8;
    let units: u8 = (hundredths % 10) as u8;
    s.push((48u8 + tenths) as char);
    s.push((48u8 + units) as char);
}

} // verus!
