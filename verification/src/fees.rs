//! Fee arithmetic in basis points.

use vstd::prelude::*;
use crate::errors::EscrowError;

verus! {

/// One hundred percent, in basis points.
pub const BPS_DENOMINATOR: u64 = 10_000;

/// The highest fee rate that a record may carry: ten percent.
pub const MAX_FEE_BASIS_POINTS: u16 = 1000;

/// The fee on `amount` at `bps` basis points, rounded down.
pub open spec fn fee_of(amount: int, bps: int) -> int {
    (amount * bps) / 10_000
}

/// What is left of `amount` once the fee is taken.
pub open spec fn net_of(amount: int, bps: int) -> int {
    amount - fee_of(amount, bps)
}

/// At a rate of at most one hundred percent the fee lies between zero and the
/// amount.
pub proof fn lemma_fee_bounds(amount: int, bps: int)
    requires
        0 <= amount,
        0 <= bps <= 10_000,
    ensures
        0 <= fee_of(amount, bps) <= amount,
{
    assert(0 <= amount * bps <= amount * 10_000) by (nonlinear_arith)
        requires
            0 <= amount,
            0 <= bps <= 10_000,
    ;
}

/// At any rate up to the cap, fee and remainder are exact: together they are
/// the amount, and the fee is no more than the amount.
pub proof fn lemma_split_is_exact(amount: u64, bps: u16)
    requires
        bps <= MAX_FEE_BASIS_POINTS,
    ensures
        fee_of(amount as int, bps as int) + net_of(amount as int, bps as int) == amount,
        0 <= fee_of(amount as int, bps as int) <= amount,
        0 <= net_of(amount as int, bps as int) <= amount,
{
    lemma_fee_bounds(amount as int, bps as int);
}

/// Splits `amount` into the fee and the remainder.
///
/// The product is taken in 128 bits, so it cannot overflow. The split is
/// refused with `Overflow` exactly when the fee would exceed the amount, which
/// no rate up to one hundred percent can cause.
pub fn calculate_fee(amount: u64, bps: u16) -> (r: Result<(u64, u64), EscrowError>)
    ensures
        fee_of(amount as int, bps as int) <= amount ==> r == Ok::<(u64, u64), EscrowError>(
            (fee_of(amount as int, bps as int) as u64, net_of(amount as int, bps as int) as u64),
        ),
        fee_of(amount as int, bps as int) > amount ==> r == Err::<(u64, u64), EscrowError>(
            EscrowError::Overflow,
        ),
        bps <= 10_000 ==> r is Ok,
        r matches Ok((fee, net)) ==> fee + net == amount && fee <= amount,
{
    let wide_amount: u128 = amount as u128;
    let wide_bps: u128 = bps as u128;
    assert(wide_amount * wide_bps <= 0xffff_ffff_ffff_ffff * 0xffff) by (nonlinear_arith)
        requires
            0 <= wide_amount <= 0xffff_ffff_ffff_ffff,
            0 <= wide_bps <= 0xffff,
    ;
    let wide_fee: u128 = wide_amount * wide_bps / 10_000;
    proof {
        if bps <= 10_000 {
            lemma_fee_bounds(amount as int, bps as int);
        }
    }
    if wide_fee > wide_amount {
        return Err(EscrowError::Overflow);
    }
    let fee: u64 = wide_fee as u64;
    Ok((fee, amount - fee))
}

} // verus!
