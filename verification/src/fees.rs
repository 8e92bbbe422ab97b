//! The platform's share of a payment.

use vstd::prelude::*;

verus! {

/// The number of basis points that make up the whole: 10000 bps are 100%.
pub const BPS_DENOMINATOR: u32 = 10000;

/// The platform's share of `amount` at `fee_bps` basis points, rounded down.
pub open spec fn platform_fee(amount: int, fee_bps: int) -> int {
    amount * fee_bps / 10000
}

/// The fee taken by parts equals the fee taken from the whole.
pub proof fn lemma_fee_by_parts(amount: int, fee_bps: int)
    requires
        amount >= 0,
        fee_bps >= 0,
    ensures
        platform_fee(amount, fee_bps) == (amount / 10000) * fee_bps + ((amount % 10000) * fee_bps)
            / 10000,
{
    let q = amount / 10000;
    let r = amount % 10000;
    assert(amount == 10000 * q + r);
    assert(amount * fee_bps == 10000 * (q * fee_bps) + r * fee_bps) by (nonlinear_arith)
        requires
            amount == 10000 * q + r,
    ;
    let x = q * fee_bps;
    let y = r * fee_bps;
    assert((10000 * x + y) / 10000 == x + y / 10000);
}

/// A fee lies between nothing and the whole amount, and a fee of zero basis
/// points is zero.
pub proof fn lemma_fee_bounds(amount: int, fee_bps: int)
    requires
        amount >= 0,
        0 <= fee_bps <= 10000,
    ensures
        0 <= platform_fee(amount, fee_bps) <= amount,
        fee_bps == 0 ==> platform_fee(amount, fee_bps) == 0,
        fee_bps == 10000 ==> platform_fee(amount, fee_bps) == amount,
{
    assert(0 <= amount * fee_bps <= amount * 10000) by (nonlinear_arith)
        requires
            amount >= 0,
            0 <= fee_bps <= 10000,
    ;
    assert(fee_bps == 0 ==> amount * fee_bps == 0) by (nonlinear_arith);
    assert(fee_bps == 10000 ==> amount * fee_bps == amount * 10000) by (nonlinear_arith);
}

/// The platform's share of `payment_amount` at `fee_bps` basis points,
/// rounded down to whole units.
pub fn calculate_platform_fee(payment_amount: i128, fee_bps: u32) -> (fee: i128)
    requires
        payment_amount >= 0,
        fee_bps <= 10000,
    ensures
        fee == platform_fee(payment_amount as int, fee_bps as int),
        0 <= fee <= payment_amount,
{
    let bps: i128 = fee_bps as i128;
    let whole: i128 = payment_amount / 10000;
    let rest: i128 = payment_amount % 10000;
    proof {
        lemma_fee_by_parts(payment_amount as int, fee_bps as int);
        lemma_fee_bounds(payment_amount as int, fee_bps as int);
        assert(0 <= whole * bps <= payment_amount) by (nonlinear_arith)
            requires
                whole == payment_amount / 10000,
                payment_amount >= 0,
                0 <= bps <= 10000,
        ;
        assert(0 <= rest * bps <= 100000000) by (nonlinear_arith)
            requires
                0 <= rest < 10000,
                0 <= bps <= 10000,
        ;
    }
    whole * bps + (rest * bps) / 10000
}

} // verus!
