//! The creator takes the value of a native escrow back.

use vstd::prelude::*;
use crate::errors::EscrowError;
use crate::rules::{check_refund, may_follow, refund_verdict, repay, repayment, Payout};
use crate::state::{EscrowAccount, Identity};

verus! {

/// The record, and who asks for the refund.
#[derive(Clone, Copy, Debug, PartialEq, Eq)]
pub struct RequestRefund {
    pub escrow_account: EscrowAccount,
    /// The caller.
    pub creator: Identity,
}

/// The inputs after the call and what is paid back, or why it is refused.
pub open spec fn outcome(ctx: RequestRefund, now: i64) -> Result<(RequestRefund, Payout), EscrowError> {
    match refund_verdict(
        ctx.creator == ctx.escrow_account.creator,
        ctx.escrow_account.status,
        ctx.escrow_account.deadline,
        now,
    ) {
        Err(e) => Err(e),
        Ok(next) => Ok(
            (
                RequestRefund {
                    escrow_account: EscrowAccount { status: next, ..ctx.escrow_account },
                    ..ctx
                },
                repayment(ctx.escrow_account.amount),
            ),
        ),
    }
}

/// Returns the whole amount to the creator and closes the record: as
/// `Cancelled` where nobody had accepted, whatever the time, and as
/// `Refunded` where the task was accepted and the deadline has come.
pub fn handler(ctx: &mut RequestRefund, now: i64) -> (r: Result<Payout, EscrowError>)
    ensures
        match outcome(*old(ctx), now) {
            Ok((after, payout)) => r == Ok::<Payout, EscrowError>(payout) && *final(ctx) == after,
            Err(e) => r == Err::<Payout, EscrowError>(e) && *final(ctx) == *old(ctx),
        },
        r matches Ok(payout) ==> {
            &&& payout.total() == old(ctx).escrow_account.amount
            &&& payout.to_creator == old(ctx).escrow_account.amount
            &&& may_follow(old(ctx).escrow_account.status, final(ctx).escrow_account.status)
            &&& final(ctx).escrow_account.status.is_terminal()
        },
        old(ctx).escrow_account.wf() ==> final(ctx).escrow_account.wf(),
{
    let is_creator = ctx.creator == ctx.escrow_account.creator;
    match check_refund(is_creator, ctx.escrow_account.status, ctx.escrow_account.deadline, now) {
        Err(e) => Err(e),
        Ok(next) => {
            ctx.escrow_account.status = next;
            Ok(repay(ctx.escrow_account.amount))
        },
    }
}

} // verus!
