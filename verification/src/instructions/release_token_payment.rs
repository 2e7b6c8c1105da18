//! The creator pays the recipient of a token escrow.

use vstd::prelude::*;
use crate::errors::EscrowError;
use crate::rules::{check_release, may_follow, pay, payment, release_verdict, Payout};
use crate::state::{Identity, TokenEscrowAccount};

verus! {

/// The record, and who asks to release it.
#[derive(Clone, Copy, Debug, PartialEq, Eq)]
pub struct ReleaseTokenPayment {
    pub escrow_account: TokenEscrowAccount,
    /// The caller.
    pub creator: Identity,
}

/// The inputs after the call and what is paid, or why it is refused.
pub open spec fn outcome(ctx: ReleaseTokenPayment) -> Result<(ReleaseTokenPayment, Payout), EscrowError> {
    match release_verdict(ctx.creator == ctx.escrow_account.creator, ctx.escrow_account.status) {
        Err(e) => Err(e),
        Ok(next) => match payment(ctx.escrow_account.amount, ctx.escrow_account.fee_basis_points) {
            Err(e) => Err(e),
            Ok(payout) => Ok(
                (
                    ReleaseTokenPayment {
                        escrow_account: TokenEscrowAccount { status: next, ..ctx.escrow_account },
                        ..ctx
                    },
                    payout,
                ),
            ),
        },
    }
}

/// Completes an active record: the fee goes to the fee recipient's token
/// account and the rest to the recipient's. The holding account is then
/// empty, and it and the record are closed.
pub fn handler(ctx: &mut ReleaseTokenPayment) -> (r: Result<Payout, EscrowError>)
    ensures
        match outcome(*old(ctx)) {
            Ok((after, payout)) => r == Ok::<Payout, EscrowError>(payout) && *final(ctx) == after,
            Err(e) => r == Err::<Payout, EscrowError>(e) && *final(ctx) == *old(ctx),
        },
        r matches Ok(payout) ==> {
            &&& payout.total() == old(ctx).escrow_account.amount
            &&& payout.to_creator == 0
            &&& may_follow(old(ctx).escrow_account.status, final(ctx).escrow_account.status)
            &&& final(ctx).escrow_account.status.is_terminal()
        },
        old(ctx).escrow_account.wf() ==> final(ctx).escrow_account.wf() && r != Err::<
            Payout,
            EscrowError,
        >(EscrowError::Overflow),
{
    let is_creator = ctx.creator == ctx.escrow_account.creator;
    let next = match check_release(is_creator, ctx.escrow_account.status) {
        Ok(next) => next,
        Err(e) => { return Err(e); },
    };
    let payout = match pay(ctx.escrow_account.amount, ctx.escrow_account.fee_basis_points) {
        Ok(payout) => payout,
        Err(e) => { return Err(e); },
    };
    ctx.escrow_account.status = next;
    Ok(payout)
}

} // verus!
