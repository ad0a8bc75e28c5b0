//! Protocol fee arithmetic.

use vstd::prelude::*;
use crate::error::ErrorCode;

verus! {

/// Number of basis points that make up the whole price.
pub const BPS_DENOMINATOR: u64 = 10000;

/// The fee owed on `price` at a rate of `fee_bps` basis points: the exact
/// product divided by ten thousand, rounded towards zero. No machine width
/// bounds this value.
pub open spec fn fee_quotient(price: u64, fee_bps: u16) -> nat {
    ((price as nat) * (fee_bps as nat)) / (BPS_DENOMINATOR as nat)
}

/// The fee as it is charged: the quotient reduced to its low 64 bits.
/// Wherever the quotient fits in 64 bits this is the quotient itself.
pub open spec fn fee_charged(price: u64, fee_bps: u16) -> u64 {
    (fee_quotient(price, fee_bps) % 0x1_0000_0000_0000_0000) as u64
}

/// Computes the protocol fee on `price` at `fee_bps` basis points.
///
/// The product is formed in 128 bits, where it cannot overflow, and both
/// steps are checked all the same. The quotient is then narrowed to 64 bits.
pub fn compute_fee(price: u64, fee_bps: u16) -> (fee: Result<u64, ErrorCode>)
    ensures
        fee == Ok::<u64, ErrorCode>(fee_charged(price, fee_bps)),
{
    let wide_price: u128 = price as u128;
    let wide_bps: u128 = fee_bps as u128;
    assert(wide_price * wide_bps <= u128::MAX) by (nonlinear_arith)
        requires
            wide_price <= u64::MAX,
            wide_bps <= u16::MAX,
    ;
    let product: u128 = match wide_price.checked_mul(wide_bps) {
        Some(product) => product,
        None => { return Err(ErrorCode::MathOverflow); },
    };
    let quotient: u128 = match product.checked_div(BPS_DENOMINATOR as u128) {
        Some(quotient) => quotient,
        None => { return Err(ErrorCode::MathOverflow); },
    };
    let fee: u64 = #[verifier::truncate] (quotient as u64);
    assert(fee == (quotient % 0x1_0000_0000_0000_0000u128) as u64) by (bit_vector)
        requires
            fee == #[verifier::truncate] (quotient as u64),
    ;
    Ok(fee)
}

/// Wherever the exact quotient fits in 64 bits, the fee charged is that
/// quotient: the floor of `price * fee_bps / 10000`.
pub proof fn law_fee_is_floor_of_quotient(price: u64, fee_bps: u16)
    requires
        fee_quotient(price, fee_bps) <= u64::MAX,
    ensures
        fee_charged(price, fee_bps) == fee_quotient(price, fee_bps),
        fee_charged(price, fee_bps) * BPS_DENOMINATOR <= price * fee_bps,
        price * fee_bps < (fee_charged(price, fee_bps) + 1) * BPS_DENOMINATOR,
{
    let product: nat = (price as nat) * (fee_bps as nat);
    assert(product == 10000 * (product / 10000) + product % 10000) by (nonlinear_arith);
    assert(0 <= product % 10000 < 10000);
}

/// At a rate of no more than the whole price, the quotient fits in 64 bits,
/// so the fee charged is the quotient, and it is no more than the price.
pub proof fn law_fee_within_price(price: u64, fee_bps: u16)
    requires
        fee_bps <= BPS_DENOMINATOR,
    ensures
        fee_charged(price, fee_bps) == fee_quotient(price, fee_bps),
        fee_charged(price, fee_bps) <= price,
{
    let product: nat = (price as nat) * (fee_bps as nat);
    assert(product <= (price as nat) * 10000) by (nonlinear_arith)
        requires
            product == (price as nat) * (fee_bps as nat),
            fee_bps <= 10000,
    ;
    assert(product / 10000 <= price) by (nonlinear_arith)
        requires
            product <= (price as nat) * 10000,
    ;
}

} // verus!
