//! The creator pays the recipient for one milestone.

use vstd::prelude::*;
use crate::errors::EscrowError;
use crate::milestones::{every_milestone_released, lemma_paid_out};
use crate::rules::{check_release, milestone_may_follow, pay, payment, release_verdict, Payout};
use crate::state::{
    EscrowStatus, Identity, MilestoneEscrowAccount, MilestoneStatus, MAX_MILESTONES,
};

verus! {

/// The record, and who asks to release the milestone.
#[derive(Clone, Copy, Debug, PartialEq, Eq)]
pub struct ReleaseMilestone {
    pub escrow_account: MilestoneEscrowAccount,
    /// The caller.
    pub creator: Identity,
}

/// The inputs after the call and what is paid, or why it is refused.
pub open spec fn outcome(ctx: ReleaseMilestone, milestone_index: u8) -> Result<
    (ReleaseMilestone, Payout),
    EscrowError,
> {
    let account = ctx.escrow_account;
    let milestone = account.milestones[milestone_index as int];
    match release_verdict(ctx.creator == account.creator, account.status) {
        Err(e) => Err(e),
        Ok(_) => if milestone_index >= account.milestone_count {
            Err(EscrowError::InvalidMilestoneIndex)
        } else if milestone.status != MilestoneStatus::Pending {
            Err(EscrowError::MilestoneAlreadyReleased)
        } else {
            match payment(milestone.amount, account.fee_basis_points) {
                Err(e) => Err(e),
                Ok(payout) => if account.released_amount + milestone.amount > u64::MAX {
                    Err(EscrowError::Overflow)
                } else {
                    Ok(
                        (
                            ReleaseMilestone {
                                escrow_account: account.paid_out(milestone_index as int),
                                ..ctx
                            },
                            payout,
                        ),
                    )
                },
            }
        },
    }
}

/// Pays one pending milestone of an active record: the fee on its amount to
/// the fee recipient, the rest to the recipient. The record stays active
/// until its last milestone is released, and is completed then. It is not
/// closed here.
pub fn handler(ctx: &mut ReleaseMilestone, milestone_index: u8) -> (r: Result<Payout, EscrowError>)
    requires
        old(ctx).escrow_account.milestone_count <= MAX_MILESTONES,
    ensures
        match outcome(*old(ctx), milestone_index) {
            Ok((after, payout)) => r == Ok::<Payout, EscrowError>(payout) && *final(ctx) == after,
            Err(e) => r == Err::<Payout, EscrowError>(e) && *final(ctx) == *old(ctx),
        },
        r matches Ok(payout) ==> {
            &&& payout.total() == old(ctx).escrow_account.milestones[milestone_index as int].amount
            &&& payout.to_creator == 0
            &&& final(ctx).escrow_account.released_amount
                == old(ctx).escrow_account.released_amount + payout.total()
            &&& milestone_may_follow(
                old(ctx).escrow_account.status,
                final(ctx).escrow_account.status,
            )
        },
        final(ctx).escrow_account.released_amount >= old(ctx).escrow_account.released_amount,
        old(ctx).escrow_account.wf() ==> final(ctx).escrow_account.wf() && r != Err::<
            Payout,
            EscrowError,
        >(EscrowError::Overflow),
{
    let is_creator = ctx.creator == ctx.escrow_account.creator;
    match check_release(is_creator, ctx.escrow_account.status) {
        Ok(_) => {},
        Err(e) => { return Err(e); },
    }
    if milestone_index >= ctx.escrow_account.milestone_count {
        return Err(EscrowError::InvalidMilestoneIndex);
    }
    let index: usize = milestone_index as usize;
    if ctx.escrow_account.milestones[index].status != MilestoneStatus::Pending {
        return Err(EscrowError::MilestoneAlreadyReleased);
    }
    let amount = ctx.escrow_account.milestones[index].amount;
    proof {
        if ctx.escrow_account.wf() {
            lemma_paid_out(ctx.escrow_account, index as int);
        }
    }
    let payout = match pay(amount, ctx.escrow_account.fee_basis_points) {
        Ok(payout) => payout,
        Err(e) => { return Err(e); },
    };
    let released = match ctx.escrow_account.released_amount.checked_add(amount) {
        Some(released) => released,
        None => { return Err(EscrowError::Overflow); },
    };
    ctx.escrow_account.milestones[index].status = MilestoneStatus::Released;
    ctx.escrow_account.released_amount = released;
    assert(ctx.escrow_account.milestones =~= old(ctx).escrow_account.marked(
        index as int,
        MilestoneStatus::Released,
    ).milestones);
    if every_milestone_released(&ctx.escrow_account) {
        ctx.escrow_account.status = EscrowStatus::Completed;
    }
    Ok(payout)
}

} // verus!
