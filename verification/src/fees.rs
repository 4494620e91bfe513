//! Protocol fee applied to an amount before it is handed to the streaming
//! service.

use vstd::prelude::*;

verus! {

/// Fee in basis points deducted from a released amount.
pub const FEE_BPS: u64 = 99;

/// Basis-point denominator.
pub const BPS_DENOMINATOR: u64 = 10000;

/// Mathematical value of the net amount: the fee is deducted with floor
/// division, so small amounts can round down to zero.
pub open spec fn spec_net_amount(amount: u64) -> int {
    amount * (BPS_DENOMINATOR - FEE_BPS) / (BPS_DENOMINATOR as int)
}

/// Applies the protocol fee to `amount`, rounding down.
pub fn net_amount_after_fee(amount: u64) -> (net: u64)
    ensures
        net == spec_net_amount(amount),
        net <= amount,
{
    let factor: u64 = BPS_DENOMINATOR - FEE_BPS;
    proof {
        assert(amount * factor <= u64::MAX * factor) by (nonlinear_arith)
            requires
                amount <= u64::MAX,
        ;
        assert(amount * factor / (BPS_DENOMINATOR as int) <= amount) by (nonlinear_arith)
            requires
                factor <= BPS_DENOMINATOR,
        ;
    }
    let wide: u128 = (amount as u128) * (factor as u128);
    let net_wide: u128 = wide / (BPS_DENOMINATOR as u128);
    net_wide as u64
}

} // verus!
