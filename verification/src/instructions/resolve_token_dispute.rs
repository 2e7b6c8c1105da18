//! The arbiter decides a disputed token escrow.

use vstd::prelude::*;
use crate::errors::EscrowError;
use crate::rules::{award, check_resolve, may_follow, resolve_verdict, settle, DisputeWinner, Payout};
use crate::state::{Identity, TokenEscrowAccount};

verus! {

/// The record, and who asks to decide it.
#[derive(Clone, Copy, Debug, PartialEq, Eq)]
pub struct ResolveTokenDispute {
    pub escrow_account: TokenEscrowAccount,
    /// The caller.
    pub arbiter: Identity,
}

/// The inputs after the call and what is paid, or why it is refused.
pub open spec fn outcome(ctx: ResolveTokenDispute, winner: DisputeWinner) -> Result<
    (ResolveTokenDispute, Payout),
    EscrowError,
> {
    match resolve_verdict(ctx.escrow_account.status, ctx.arbiter == ctx.escrow_account.arbiter) {
        Err(e) => Err(e),
        Ok(next) => match award(
            ctx.escrow_account.amount,
            ctx.escrow_account.fee_basis_points,
            winner,
        ) {
            Err(e) => Err(e),
            Ok(payout) => Ok(
                (
                    ResolveTokenDispute {
                        escrow_account: TokenEscrowAccount { status: next, ..ctx.escrow_account },
                        ..ctx
                    },
                    payout,
                ),
            ),
        },
    }
}

/// Decides a disputed record and closes it and its holding account. Where
/// the recipient wins, the fee goes to the fee recipient and the rest to the
/// recipient; where the creator wins, the whole amount goes back and no fee
/// is taken.
pub fn handler(ctx: &mut ResolveTokenDispute, winner: DisputeWinner) -> (r: Result<
    Payout,
    EscrowError,
>)
    ensures
        match outcome(*old(ctx), winner) {
            Ok((after, payout)) => r == Ok::<Payout, EscrowError>(payout) && *final(ctx) == after,
            Err(e) => r == Err::<Payout, EscrowError>(e) && *final(ctx) == *old(ctx),
        },
        r matches Ok(payout) ==> {
            &&& payout.total() == old(ctx).escrow_account.amount
            &&& winner == DisputeWinner::Creator ==> payout.to_creator
                == old(ctx).escrow_account.amount && payout.fee == 0
            &&& winner == DisputeWinner::Recipient ==> payout.to_creator == 0
            &&& may_follow(old(ctx).escrow_account.status, final(ctx).escrow_account.status)
            &&& final(ctx).escrow_account.status.is_terminal()
        },
        old(ctx).escrow_account.wf() ==> final(ctx).escrow_account.wf() && r != Err::<
            Payout,
            EscrowError,
        >(EscrowError::Overflow),
{
    let is_arbiter = ctx.arbiter == ctx.escrow_account.arbiter;
    let next = match check_resolve(ctx.escrow_account.status, is_arbiter) {
        Ok(next) => next,
        Err(e) => { return Err(e); },
    };
    let payout = match settle(
        ctx.escrow_account.amount,
        ctx.escrow_account.fee_basis_points,
        winner,
    ) {
        Ok(payout) => payout,
        Err(e) => { return Err(e); },
    };
    ctx.escrow_account.status = next;
    Ok(payout)
}

} // verus!
