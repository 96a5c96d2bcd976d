//! The linear fee-decay policy: the fee owed on a deposit starts at the
//! recorded initial rate and decays linearly to zero over the cool-down
//! period.

use vstd::prelude::*;

use crate::address::Address;

verus! {

/// Variables to construct linearly decaying fees over some period of time.
pub struct FeeParameters {
    /// The duration after a deposit in which the depositor would owe fees.
    pub cool_down_period: i64,
    /// The fee rate in effect at the instant of a deposit. A value of
    /// `u32::MAX` stands for a starting rate of 100%.
    pub inital_fee_rate: u32,
    /// Address with control over the above parameters.
    pub authority: Address,
}

/// The fee rate owed `elapsed` seconds after a deposit made under initial
/// rate `rate` and cool-down period `cool_down`: zero once the cool-down
/// has passed, otherwise `rate` scaled by the fraction of the cool-down
/// that remains.
pub open spec fn effective_fee_spec(rate: u32, elapsed: u64, cool_down: u64) -> int {
    if elapsed >= cool_down {
        0
    } else {
        (rate * (cool_down - elapsed)) / (cool_down as int)
    }
}

/// Compute the fee rate currently owed from a receipt's recorded initial
/// rate, the seconds elapsed since the deposit, and the recorded cool-down
/// period.
pub fn effective_fee(rate: u32, elapsed: u64, cool_down: u64) -> (r: u32)
    ensures
        r == effective_fee_spec(rate, elapsed, cool_down),
{
    if elapsed >= cool_down {
        return 0;
    }
    let remaining: u64 = cool_down - elapsed;
    proof {
        assert(rate * remaining <= 0xffff_ffff * 0xffff_ffff_ffff_ffff) by (nonlinear_arith)
            requires
                rate <= 0xffff_ffffu32,
                remaining <= 0xffff_ffff_ffff_ffffu64,
        ;
    }
    let num: u128 = (rate as u128) * (remaining as u128);
    let q: u128 = num / (cool_down as u128);
    proof {
        lemma_effective_fee_bounded(rate, elapsed, cool_down);
    }
    q as u32
}

/// The fee rate never exceeds the initial rate.
pub proof fn lemma_effective_fee_bounded(rate: u32, elapsed: u64, cool_down: u64)
    ensures
        0 <= effective_fee_spec(rate, elapsed, cool_down) <= rate,
{
    if elapsed < cool_down {
        let rem = cool_down - elapsed;
        vstd::arithmetic::mul::lemma_mul_inequality(rem as int, cool_down as int, rate as int);
        assert(rate * rem == rem * rate) by (nonlinear_arith);
        assert(rate * cool_down == cool_down * rate) by (nonlinear_arith);
        vstd::arithmetic::div_mod::lemma_div_is_ordered(
            rate * rem,
            rate * cool_down,
            cool_down as int,
        );
        vstd::arithmetic::div_mod::lemma_div_by_multiple(rate as int, cool_down as int);
        vstd::arithmetic::div_mod::lemma_div_pos_is_pos(rate * rem, cool_down as int);
    }
}

/// At the instant of the deposit the fee equals the initial rate.
pub proof fn lemma_effective_fee_at_zero(rate: u32, cool_down: u64)
    requires
        cool_down > 0,
    ensures
        effective_fee_spec(rate, 0, cool_down) == rate,
{
    vstd::arithmetic::div_mod::lemma_div_by_multiple(rate as int, cool_down as int);
}

/// Once the cool-down has fully elapsed the fee is zero.
pub proof fn lemma_effective_fee_after_cool_down(rate: u32, elapsed: u64, cool_down: u64)
    requires
        elapsed >= cool_down,
    ensures
        effective_fee_spec(rate, elapsed, cool_down) == 0,
{
}

/// The fee is monotonically non-increasing in the elapsed time.
pub proof fn lemma_effective_fee_monotonic(rate: u32, e1: u64, e2: u64, cool_down: u64)
    requires
        e1 <= e2,
    ensures
        effective_fee_spec(rate, e2, cool_down) <= effective_fee_spec(rate, e1, cool_down),
{
    lemma_effective_fee_bounded(rate, e1, cool_down);
    lemma_effective_fee_bounded(rate, e2, cool_down);
    if e2 < cool_down {
        let rem1 = cool_down - e1;
        let rem2 = cool_down - e2;
        vstd::arithmetic::mul::lemma_mul_inequality(rem2 as int, rem1 as int, rate as int);
        assert(rate * rem1 == rem1 * rate) by (nonlinear_arith);
        assert(rate * rem2 == rem2 * rate) by (nonlinear_arith);
        vstd::arithmetic::div_mod::lemma_div_is_ordered(
            rate * rem2,
            rate * rem1,
            cool_down as int,
        );
    }
}

} // verus!
