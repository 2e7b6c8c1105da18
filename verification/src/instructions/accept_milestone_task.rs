//! The recipient takes on the task of a milestone escrow.

use vstd::prelude::*;
use crate::errors::EscrowError;
use crate::milestones::{lemma_all_pending, lemma_status_alone};
use crate::rules::{accept_verdict, check_accept, milestone_may_follow};
use crate::state::{Identity, MilestoneEscrowAccount};

verus! {

/// The record, and who asks to accept it.
#[derive(Clone, Copy, Debug, PartialEq, Eq)]
pub struct AcceptMilestoneTask {
    pub escrow_account: MilestoneEscrowAccount,
    /// The caller.
    pub recipient: Identity,
}

/// The inputs after the call, or why it is refused.
pub open spec fn outcome(ctx: AcceptMilestoneTask, now: i64) -> Result<
    AcceptMilestoneTask,
    EscrowError,
> {
    match accept_verdict(
        ctx.recipient == ctx.escrow_account.recipient,
        ctx.escrow_account.status,
        ctx.escrow_account.deadline,
        now,
    ) {
        Ok(next) => Ok(
            AcceptMilestoneTask {
                escrow_account: MilestoneEscrowAccount { status: next, ..ctx.escrow_account },
                ..ctx
            },
        ),
        Err(e) => Err(e),
    }
}

/// Makes a created record active. No amount moves.
pub fn handler(ctx: &mut AcceptMilestoneTask, now: i64) -> (r: Result<(), EscrowError>)
    ensures
        match outcome(*old(ctx), now) {
            Ok(after) => r is Ok && *final(ctx) == after,
            Err(e) => r == Err::<(), EscrowError>(e) && *final(ctx) == *old(ctx),
        },
        r is Ok ==> milestone_may_follow(
            old(ctx).escrow_account.status,
            final(ctx).escrow_account.status,
        ),
        final(ctx).escrow_account.released_amount == old(ctx).escrow_account.released_amount,
        old(ctx).escrow_account.wf() ==> final(ctx).escrow_account.wf(),
{
    let is_recipient = ctx.recipient == ctx.escrow_account.recipient;
    match check_accept(is_recipient, ctx.escrow_account.status, ctx.escrow_account.deadline, now) {
        Ok(next) => {
            proof {
                if ctx.escrow_account.wf() {
                    lemma_all_pending(ctx.escrow_account.live());
                    lemma_status_alone(ctx.escrow_account, next);
                }
            }
            ctx.escrow_account.status = next;
            Ok(())
        },
        Err(e) => Err(e),
    }
}

} // verus!
