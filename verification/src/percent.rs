//! Percentages of a level against its maximum, kept exact.
//!
//! A percentage is the fraction `100 * level / max`. It is rounded only
//! where a whole number is asked for, and each way of rounding has its own
//! function.

use vstd::arithmetic::div_mod::{
    lemma_fundamental_div_mod, lemma_fundamental_div_mod_converse, lemma_mod_bound,
};
use vstd::prelude::*;

verus! {

/// The integer nearest to `num / den`, a tie going up.
pub open spec fn round_half_up(num: int, den: int) -> int {
    if 2 * (num % den) >= den {
        num / den + 1
    } else {
        num / den
    }
}

/// The integer nearest to `num / den`, a tie going to the even neighbour.
pub open spec fn round_half_even(num: int, den: int) -> int {
    if 2 * (num % den) > den || (2 * (num % den) == den && (num / den) % 2 == 1) {
        num / den + 1
    } else {
        num / den
    }
}

/// The whole percent nearest to `num / den`, a tie going up, after the
/// fraction has been brought into the range from 0 to 100.
pub open spec fn nearest_percent(num: int, den: int) -> int {
    if num <= 0 {
        0
    } else if num >= 100 * den {
        100
    } else {
        round_half_up(num, den)
    }
}

/// `amount`, and 100 where it is more.
pub open spec fn capped(amount: u8) -> int {
    if amount > 100 {
        100
    } else {
        amount as int
    }
}

/// The level that stands at `percent` of `max`, rounded down.
pub open spec fn spec_level_at(percent: int, max: int) -> int {
    percent * max / 100
}

/// The numerator of the percentage of `level` against `max`.
pub open spec fn percent_num(level: int, max: int) -> int {
    if max == 0 {
        0
    } else {
        100 * level
    }
}

/// The denominator of the percentage of a level against `max`.
pub open spec fn percent_den(max: int) -> int {
    if max == 0 {
        1
    } else {
        max
    }
}

/// `whole`, brought into the range from 0 to 100.
pub open spec fn clamp_percent(whole: int) -> int {
    if whole < 0 {
        0
    } else if whole > 100 {
        100
    } else {
        whole
    }
}

/// A fraction is its quotient and its remainder.
proof fn lemma_split(num: int, den: int)
    requires
        den > 0,
    ensures
        num == (num / den) * den + num % den,
        0 <= num % den < den,
{
    lemma_fundamental_div_mod(num, den);
    lemma_mod_bound(num, den);
    assert(den * (num / den) == (num / den) * den) by (nonlinear_arith);
}

/// Adding a whole number to a fraction adds it to the quotient and leaves
/// the remainder.
proof fn lemma_shift(num: int, den: int, by: int)
    requires
        den > 0,
    ensures
        (num + by * den) / den == num / den + by,
        (num + by * den) % den == num % den,
{
    lemma_split(num, den);
    assert(num + by * den == (num / den + by) * den + num % den) by (nonlinear_arith)
        requires
            num == (num / den) * den + num % den,
    ;
    lemma_fundamental_div_mod_converse(num + by * den, den, num / den + by, num % den);
}

/// A fraction that is at least a whole number has a quotient that is.
proof fn lemma_quotient_at_least(num: int, den: int, low: int)
    requires
        den > 0,
        low * den <= num,
    ensures
        low <= num / den,
{
    lemma_split(num, den);
    let q = num / den;
    let r = num % den;
    assert(low <= q) by (nonlinear_arith)
        requires
            den > 0,
            low * den <= q * den + r,
            r < den,
    ;
}

/// A fraction that is below a whole number has a quotient that is.
proof fn lemma_quotient_below(num: int, den: int, high: int)
    requires
        den > 0,
        num < high * den,
    ensures
        num / den < high,
{
    lemma_split(num, den);
    let q = num / den;
    let r = num % den;
    assert(q < high) by (nonlinear_arith)
        requires
            den > 0,
            q * den + r < high * den,
            0 <= r,
    ;
}

/// Rounding with a tie going up gives a nearest integer: the fraction is
/// at most a half away from it, and less than a half above it.
pub proof fn lemma_round_half_up_is_nearest(num: int, den: int)
    requires
        den > 0,
    ensures
        -den <= 2 * (num - round_half_up(num, den) * den) < den,
{
    lemma_split(num, den);
    let q = num / den;
    assert((q + 1) * den == q * den + den) by (nonlinear_arith);
}

/// Rounding with a tie going to the even neighbour gives a nearest
/// integer: the fraction is at most a half away from it, and where it is
/// just a half away the integer is even.
pub proof fn lemma_round_half_even_is_nearest(num: int, den: int)
    requires
        den > 0,
    ensures
        -den <= 2 * (num - round_half_even(num, den) * den) <= den,
        2 * (num - round_half_even(num, den) * den) == den || 2 * (num - round_half_even(
            num,
            den,
        ) * den) == -den ==> round_half_even(num, den) % 2 == 0,
{
    lemma_split(num, den);
    let q = num / den;
    assert((q + 1) * den == q * den + den) by (nonlinear_arith);
}

/// A whole number of percent is its own nearest whole percent, whichever
/// way ties go.
pub proof fn lemma_whole_is_exact(whole: int, den: int)
    requires
        den > 0,
    ensures
        round_half_up(whole * den, den) == whole,
        round_half_even(whole * den, den) == whole,
        nearest_percent(whole * den, den) == clamp_percent(whole),
{
    lemma_fundamental_div_mod_converse(whole * den, den, whole, 0);
    assert(whole <= 0 <==> whole * den <= 0) by (nonlinear_arith)
        requires
            den > 0,
    ;
    assert(whole >= 100 <==> whole * den >= 100 * den) by (nonlinear_arith)
        requires
            den > 0,
    ;
}

/// The nearest whole percent is within 0 and 100.
pub proof fn lemma_nearest_percent_range(num: int, den: int)
    requires
        den > 0,
    ensures
        0 <= nearest_percent(num, den) <= 100,
{
    if 0 < num < 100 * den {
        lemma_quotient_at_least(num, den, 0);
        lemma_quotient_below(num, den, 100);
    }
}

/// Raising a percentage by a whole amount raises its nearest whole
/// percent by as much, up to 100, where it stays.
pub proof fn lemma_plus(num: int, den: int, amount: int)
    requires
        den > 0,
        num >= 0,
        amount >= 0,
    ensures
        nearest_percent(num + amount * den, den) == clamp_percent(
            nearest_percent(num, den) + amount,
        ),
{
    assert(amount * den >= 0) by (nonlinear_arith)
        requires
            amount >= 0,
            den > 0,
    ;
    let raised = num + amount * den;
    if num >= 100 * den {
    } else if num == 0 {
        lemma_whole_is_exact(amount, den);
    } else {
        lemma_nearest_percent_range(num, den);
        lemma_shift(num, den, amount);
        if raised >= 100 * den {
            lemma_quotient_at_least(raised, den, 100);
        } else {
            lemma_nearest_percent_range(raised, den);
        }
    }
}

/// Lowering a percentage of at most 100 by a whole amount lowers its
/// nearest whole percent by as much, down to 0, where it stays.
pub proof fn lemma_minus(num: int, den: int, amount: int)
    requires
        den > 0,
        0 <= num <= 100 * den,
        amount >= 0,
    ensures
        nearest_percent(num - amount * den, den) == clamp_percent(
            nearest_percent(num, den) - amount,
        ),
{
    assert((-amount) * den == -(amount * den)) by (nonlinear_arith);
    assert(amount * den >= 0) by (nonlinear_arith)
        requires
            amount >= 0,
            den > 0,
    ;
    let lowered = num - amount * den;
    lemma_nearest_percent_range(num, den);
    lemma_whole_is_exact(100, den);
    lemma_shift(num, den, -amount);
    if lowered <= 0 {
        if num == 0 {
        } else if num < amount * den {
            lemma_quotient_below(num, den, amount);
        } else {
            lemma_whole_is_exact(amount, den);
        }
    } else if lowered >= 100 * den {
        assert(amount == 0) by (nonlinear_arith)
            requires
                amount >= 0,
                den > 0,
                num <= 100 * den,
                num - amount * den >= 100 * den,
        ;
    } else {
        lemma_nearest_percent_range(lowered, den);
    }
}

/// What rounding down loses of the level that stands at `percent` of
/// `max`, in hundredths of a level.
pub open spec fn lost_at(percent: int, max: int) -> int {
    (percent * max) % 100
}

/// The level that stands at `percent` of `max` is shown as `percent`
/// again exactly where rounding down has lost less than half a percent of
/// `max`, or just half a percent while `percent` is even.
pub proof fn lemma_level_shown(percent: int, max: int)
    requires
        max > 0,
        percent >= 0,
    ensures
        round_half_even(100 * spec_level_at(percent, max), max) == percent <==> (2 * lost_at(
            percent,
            max,
        ) < max || (2 * lost_at(percent, max) == max && percent % 2 == 0)),
{
    let lost = lost_at(percent, max);
    let level = spec_level_at(percent, max);
    lemma_split(percent * max, 100);
    let num = 100 * level;
    assert(num == percent * max - lost);
    lemma_split(num, max);
    if lost == 0 {
        lemma_whole_is_exact(percent, max);
    } else if lost < max {
        assert(num == (percent - 1) * max + (max - lost)) by (nonlinear_arith)
            requires
                num == percent * max - lost,
        ;
        lemma_fundamental_div_mod_converse(num, max, percent - 1, max - lost);
    } else {
        assert(num <= (percent - 1) * max) by (nonlinear_arith)
            requires
                num == percent * max - lost,
                lost >= max,
        ;
        if num == (percent - 1) * max {
            lemma_whole_is_exact(percent - 1, max);
        } else {
            lemma_quotient_below(num, max, percent - 1);
        }
    }
}

/// The level that stands at `percent` of `max` has `percent` as its
/// nearest whole percent, a tie going up, exactly where rounding down has
/// lost no more than half a percent of `max`.
pub proof fn lemma_level_rounded(percent: int, max: int)
    requires
        max > 0,
        percent >= 0,
    ensures
        round_half_up(100 * spec_level_at(percent, max), max) == percent <==> 2 * lost_at(
            percent,
            max,
        ) <= max,
{
    let lost = lost_at(percent, max);
    let level = spec_level_at(percent, max);
    lemma_split(percent * max, 100);
    let num = 100 * level;
    assert(num == percent * max - lost);
    lemma_split(num, max);
    if lost == 0 {
        lemma_whole_is_exact(percent, max);
    } else if lost < max {
        assert(num == (percent - 1) * max + (max - lost)) by (nonlinear_arith)
            requires
                num == percent * max - lost,
        ;
        lemma_fundamental_div_mod_converse(num, max, percent - 1, max - lost);
    } else {
        assert(num <= (percent - 1) * max) by (nonlinear_arith)
            requires
                num == percent * max - lost,
                lost >= max,
        ;
        if num == (percent - 1) * max {
            lemma_whole_is_exact(percent - 1, max);
        } else {
            lemma_quotient_below(num, max, percent - 1);
        }
    }
}

/// The level that stands at no more than 100 percent of `max` is no more
/// than `max`.
pub proof fn lemma_level_within(percent: int, max: int)
    requires
        0 <= percent <= 100,
        0 <= max,
    ensures
        0 <= spec_level_at(percent, max) <= max,
{
    assert(0 <= percent * max <= 100 * max) by (nonlinear_arith)
        requires
            0 <= percent <= 100,
            0 <= max,
    ;
}

/// The percentage of a level against its maximum, as a fraction.
#[derive(Copy, Clone, Debug)]
pub struct Percent {
    num: u64,
    den: u64,
}

impl Percent {
    #[verifier::type_invariant]
    spec fn wf(self) -> bool {
        0 < self.den <= u32::MAX && self.num <= 100 * u32::MAX
    }

    /// The numerator of the fraction.
    pub closed spec fn num(self) -> int {
        self.num as int
    }

    /// The denominator of the fraction.
    pub closed spec fn den(self) -> int {
        self.den as int
    }

    /// The percentage of `level` against `max`: `100 * level / max`, and 0
    /// where `max` is 0.
    pub fn of(level: u32, max: u32) -> (percent: Percent)
        ensures
            percent.num() == percent_num(level as int, max as int),
            percent.den() == percent_den(max as int),
    {
        if max == 0 {
            Percent { num: 0, den: 1 }
        } else {
            Percent { num: 100 * (level as u64), den: max as u64 }
        }
    }

    /// The nearest whole percent, a tie going up.
    pub fn rounded(&self) -> (whole: u64)
        ensures
            whole == round_half_up(self.num(), self.den()),
    {
        proof {
            use_type_invariant(self);
        }
        let quotient: u64 = self.num / self.den;
        let rest: u64 = self.num % self.den;
        if 2 * rest >= self.den {
            quotient + 1
        } else {
            quotient
        }
    }

    /// The nearest whole percent, a tie going to the even neighbour. This is
    /// the number that is shown to the user.
    pub fn displayed(&self) -> (whole: u64)
        ensures
            whole == round_half_even(self.num(), self.den()),
    {
        proof {
            use_type_invariant(self);
        }
        let quotient: u64 = self.num / self.den;
        let rest: u64 = self.num % self.den;
        if 2 * rest > self.den || (2 * rest == self.den && quotient % 2 == 1) {
            quotient + 1
        } else {
            quotient
        }
    }

    /// The whole percent nearest to this percentage raised by `amount`, and
    /// 100 where that is more.
    pub fn plus(&self, amount: u8) -> (whole: u8)
        ensures
            whole == nearest_percent(self.num() + amount * self.den(), self.den()),
            whole <= 100,
    {
        proof {
            use_type_invariant(self);
        }
        let den: u64 = self.den;
        assert(amount * den <= 255 * 0xffff_ffff) by (nonlinear_arith)
            requires
                amount <= 255,
                den <= 0xffff_ffff,
        ;
        let raised: u64 = self.num + (amount as u64) * den;
        nearest_whole(raised, den)
    }

    /// The whole percent nearest to this percentage lowered by `amount`: 0
    /// where that is less, 100 where it is more.
    pub fn minus(&self, amount: u8) -> (whole: u8)
        ensures
            whole == nearest_percent(self.num() - amount * self.den(), self.den()),
            whole <= 100,
    {
        proof {
            use_type_invariant(self);
        }
        let den: u64 = self.den;
        assert(amount * den <= 255 * 0xffff_ffff) by (nonlinear_arith)
            requires
                amount <= 255,
                den <= 0xffff_ffff,
        ;
        let drop: u64 = (amount as u64) * den;
        if self.num <= drop {
            0
        } else {
            nearest_whole(self.num - drop, den)
        }
    }
}

/// The whole percent nearest to `num / den`, within 0 to 100.
fn nearest_whole(num: u64, den: u64) -> (whole: u8)
    requires
        0 < den <= u32::MAX,
        num <= 355 * u32::MAX,
    ensures
        whole == nearest_percent(num as int, den as int),
        whole <= 100,
{
    if num == 0 {
        0
    } else if num >= 100 * den {
        100
    } else {
        let quotient: u64 = num / den;
        let rest: u64 = num % den;
        assert(quotient < 100) by (nonlinear_arith)
            requires
                quotient == num / den,
                0 < den,
                num < 100 * den,
        ;
        if 2 * rest >= den {
            (quotient + 1) as u8
        } else {
            quotient as u8
        }
    }
}

/// `amount`, and 100 where it is more.
pub fn cap(amount: u8) -> (percent: u8)
    ensures
        percent == capped(amount),
{
    if amount > 100 {
        100
    } else {
        amount
    }
}

/// The level that stands at `percent` of `max`, rounded down.
pub fn level_at(percent: u8, max: u32) -> (level: u64)
    ensures
        level == spec_level_at(percent as int, max as int),
{
    assert(percent * max <= 255 * 0xffff_ffff) by (nonlinear_arith)
        requires
            percent <= 255,
            max <= 0xffff_ffff,
    ;
    (percent as u64) * (max as u64) / 100
}

} // verus!
