//! A party to a milestone escrow contests one milestone.

use vstd::prelude::*;
use crate::errors::EscrowError;
use crate::milestones::lemma_contested;
use crate::rules::{check_dispute, dispute_verdict, milestone_may_follow};
use crate::state::{Identity, MilestoneEscrowAccount, MilestoneStatus, MAX_MILESTONES};

verus! {

/// The record, and who contests the milestone.
#[derive(Clone, Copy, Debug, PartialEq, Eq)]
pub struct DisputeMilestone {
    pub escrow_account: MilestoneEscrowAccount,
    /// The caller.
    pub disputer: Identity,
}

/// The inputs after the call, or why it is refused.
pub open spec fn outcome(ctx: DisputeMilestone, milestone_index: u8) -> Result<
    DisputeMilestone,
    EscrowError,
> {
    let account = ctx.escrow_account;
    match dispute_verdict(
        account.status,
        ctx.disputer == account.creator || ctx.disputer == account.recipient,
    ) {
        Err(e) => Err(e),
        Ok(next) => if milestone_index >= account.milestone_count {
            Err(EscrowError::InvalidMilestoneIndex)
        } else if account.milestones[milestone_index as int].status != MilestoneStatus::Pending {
            Err(EscrowError::MilestoneNotPending)
        } else {
            Ok(
                DisputeMilestone {
                    escrow_account: MilestoneEscrowAccount {
                        status: next,
                        ..account.marked(milestone_index as int, MilestoneStatus::Disputed)
                    },
                    ..ctx
                },
            )
        },
    }
}

/// Puts one pending milestone of an active record under dispute, and the
/// record with it: until the arbiter has decided, no other milestone can be
/// released or contested. No amount moves.
pub fn handler(ctx: &mut DisputeMilestone, milestone_index: u8) -> (r: Result<(), EscrowError>)
    requires
        old(ctx).escrow_account.milestone_count <= MAX_MILESTONES,
    ensures
        match outcome(*old(ctx), milestone_index) {
            Ok(after) => r is Ok && *final(ctx) == after,
            Err(e) => r == Err::<(), EscrowError>(e) && *final(ctx) == *old(ctx),
        },
        r is Ok ==> milestone_may_follow(
            old(ctx).escrow_account.status,
            final(ctx).escrow_account.status,
        ),
        final(ctx).escrow_account.released_amount == old(ctx).escrow_account.released_amount,
        old(ctx).escrow_account.wf() ==> final(ctx).escrow_account.wf(),
{
    let is_party = ctx.disputer == ctx.escrow_account.creator || ctx.disputer
        == ctx.escrow_account.recipient;
    let next = match check_dispute(ctx.escrow_account.status, is_party) {
        Ok(next) => next,
        Err(e) => { return Err(e); },
    };
    if milestone_index >= ctx.escrow_account.milestone_count {
        return Err(EscrowError::InvalidMilestoneIndex);
    }
    let index: usize = milestone_index as usize;
    if ctx.escrow_account.milestones[index].status != MilestoneStatus::Pending {
        return Err(EscrowError::MilestoneNotPending);
    }
    proof {
        if ctx.escrow_account.wf() {
            lemma_contested(ctx.escrow_account, index as int);
        }
    }
    ctx.escrow_account.milestones[index].status = MilestoneStatus::Disputed;
    ctx.escrow_account.status = next;
    assert(ctx.escrow_account.milestones =~= old(ctx).escrow_account.marked(
        index as int,
        MilestoneStatus::Disputed,
    ).milestones);
    assert(final(ctx).escrow_account.live() == old(ctx).escrow_account.marked(
        index as int,
        MilestoneStatus::Disputed,
    ).live());
    Ok(())
}

} // verus!
