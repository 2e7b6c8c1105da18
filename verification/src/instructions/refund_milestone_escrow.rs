//! The creator takes back what a milestone escrow has not released.

use vstd::prelude::*;
use crate::errors::EscrowError;
use crate::milestones::{lemma_released_within_total, lemma_status_alone};
use crate::rules::{check_refund, milestone_may_follow, refund_verdict, repay, repayment, Payout};
use crate::state::{Identity, MilestoneEscrowAccount};

verus! {

/// The record, and who asks for the refund.
#[derive(Clone, Copy, Debug, PartialEq, Eq)]
pub struct RefundMilestoneEscrow {
    pub escrow_account: MilestoneEscrowAccount,
    /// The caller.
    pub creator: Identity,
}

/// The inputs after the call and what is paid back, or why it is refused.
pub open spec fn outcome(ctx: RefundMilestoneEscrow, now: i64) -> Result<
    (RefundMilestoneEscrow, Payout),
    EscrowError,
> {
    let account = ctx.escrow_account;
    match refund_verdict(ctx.creator == account.creator, account.status, account.deadline, now) {
        Err(e) => Err(e),
        Ok(next) => if account.released_amount > account.total_amount {
            Err(EscrowError::Overflow)
        } else {
            Ok(
                (
                    RefundMilestoneEscrow {
                        escrow_account: MilestoneEscrowAccount { status: next, ..account },
                        ..ctx
                    },
                    repayment(account.unreleased() as u64),
                ),
            )
        },
    }
}

/// Returns to the creator what has not been released, and closes the record:
/// as `Cancelled` where nobody had accepted, whatever the time, and as
/// `Refunded` where the task was accepted and the deadline has come.
pub fn handler(ctx: &mut RefundMilestoneEscrow, now: i64) -> (r: Result<Payout, EscrowError>)
    ensures
        match outcome(*old(ctx), now) {
            Ok((after, payout)) => r == Ok::<Payout, EscrowError>(payout) && *final(ctx) == after,
            Err(e) => r == Err::<Payout, EscrowError>(e) && *final(ctx) == *old(ctx),
        },
        r matches Ok(payout) ==> {
            &&& payout.total() == old(ctx).escrow_account.unreleased()
            &&& payout.to_creator == payout.total()
            &&& milestone_may_follow(
                old(ctx).escrow_account.status,
                final(ctx).escrow_account.status,
            )
            &&& final(ctx).escrow_account.status.is_terminal()
        },
        final(ctx).escrow_account.released_amount == old(ctx).escrow_account.released_amount,
        old(ctx).escrow_account.wf() ==> final(ctx).escrow_account.wf() && r != Err::<
            Payout,
            EscrowError,
        >(EscrowError::Overflow),
{
    let is_creator = ctx.creator == ctx.escrow_account.creator;
    let next = match check_refund(
        is_creator,
        ctx.escrow_account.status,
        ctx.escrow_account.deadline,
        now,
    ) {
        Ok(next) => next,
        Err(e) => { return Err(e); },
    };
    proof {
        lemma_released_within_total(ctx.escrow_account.live());
        if ctx.escrow_account.wf() {
            lemma_status_alone(ctx.escrow_account, next);
        }
    }
    let unreleased = match ctx.escrow_account.total_amount.checked_sub(
        ctx.escrow_account.released_amount,
    ) {
        Some(unreleased) => unreleased,
        None => { return Err(EscrowError::Overflow); },
    };
    ctx.escrow_account.status = next;
    Ok(repay(unreleased))
}

} // verus!
