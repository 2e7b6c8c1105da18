//! The arbiter decides a disputed milestone.

use vstd::prelude::*;
use crate::errors::EscrowError;
use crate::milestones::{every_milestone_released, lemma_paid_out};
use crate::rules::{
    award, check_resolve, milestone_may_follow, resolve_verdict, settle, DisputeWinner, Payout,
};
use crate::state::{
    EscrowStatus, Identity, MilestoneEscrowAccount, MilestoneStatus, MAX_MILESTONES,
};

verus! {

/// The record, and who asks to decide the milestone.
#[derive(Clone, Copy, Debug, PartialEq, Eq)]
pub struct ResolveMilestoneDispute {
    pub escrow_account: MilestoneEscrowAccount,
    /// The caller.
    pub arbiter: Identity,
}

/// The inputs after the call and what is paid, or why it is refused.
pub open spec fn outcome(
    ctx: ResolveMilestoneDispute,
    milestone_index: u8,
    winner: DisputeWinner,
) -> Result<(ResolveMilestoneDispute, Payout), EscrowError> {
    let account = ctx.escrow_account;
    let milestone = account.milestones[milestone_index as int];
    match resolve_verdict(account.status, ctx.arbiter == account.arbiter) {
        Err(e) => Err(e),
        Ok(_) => if milestone_index >= account.milestone_count {
            Err(EscrowError::InvalidMilestoneIndex)
        } else if milestone.status != MilestoneStatus::Disputed {
            Err(EscrowError::MilestoneNotPending)
        } else {
            match award(milestone.amount, account.fee_basis_points, winner) {
                Err(e) => Err(e),
                Ok(payout) => if account.released_amount + milestone.amount > u64::MAX {
                    Err(EscrowError::Overflow)
                } else {
                    Ok(
                        (
                            ResolveMilestoneDispute {
                                escrow_account: account.paid_out(milestone_index as int),
                                ..ctx
                            },
                            payout,
                        ),
                    )
                },
            }
        },
    }
}

/// Decides the disputed milestone of a disputed record. Where the recipient
/// wins, the fee on the milestone's amount goes to the fee recipient and the
/// rest to the recipient; where the creator wins, the milestone's amount goes
/// back and no fee is taken. Either way the milestone counts as released.
/// The record is active again, or completed if that was its last milestone.
pub fn handler(ctx: &mut ResolveMilestoneDispute, milestone_index: u8, winner: DisputeWinner) -> (r:
    Result<Payout, EscrowError>)
    requires
        old(ctx).escrow_account.milestone_count <= MAX_MILESTONES,
    ensures
        match outcome(*old(ctx), milestone_index, winner) {
            Ok((after, payout)) => r == Ok::<Payout, EscrowError>(payout) && *final(ctx) == after,
            Err(e) => r == Err::<Payout, EscrowError>(e) && *final(ctx) == *old(ctx),
        },
        r matches Ok(payout) ==> {
            &&& payout.total() == old(ctx).escrow_account.milestones[milestone_index as int].amount
            &&& winner == DisputeWinner::Creator ==> payout.to_creator == payout.total()
            &&& winner == DisputeWinner::Recipient ==> payout.to_creator == 0
            &&& final(ctx).escrow_account.released_amount
                == old(ctx).escrow_account.released_amount + payout.total()
            &&& milestone_may_follow(
                old(ctx).escrow_account.status,
                final(ctx).escrow_account.status,
            )
        },
        final(ctx).escrow_account.released_amount >= old(ctx).escrow_account.released_amount,
        old(ctx).escrow_account.wf() ==> final(ctx).escrow_account.wf() && r != Err::<
            Payout,
            EscrowError,
        >(EscrowError::Overflow),
{
    let is_arbiter = ctx.arbiter == ctx.escrow_account.arbiter;
    match check_resolve(ctx.escrow_account.status, is_arbiter) {
        Ok(_) => {},
        Err(e) => { return Err(e); },
    }
    if milestone_index >= ctx.escrow_account.milestone_count {
        return Err(EscrowError::InvalidMilestoneIndex);
    }
    let index: usize = milestone_index as usize;
    if ctx.escrow_account.milestones[index].status != MilestoneStatus::Disputed {
        return Err(EscrowError::MilestoneNotPending);
    }
    let amount = ctx.escrow_account.milestones[index].amount;
    proof {
        if ctx.escrow_account.wf() {
            lemma_paid_out(ctx.escrow_account, index as int);
        }
    }
    let payout = match settle(amount, ctx.escrow_account.fee_basis_points, winner) {
        Ok(payout) => payout,
        Err(e) => { return Err(e); },
    };
    let released = match ctx.escrow_account.released_amount.checked_add(amount) {
        Some(released) => released,
        None => { return Err(EscrowError::Overflow); },
    };
    ctx.escrow_account.milestones[index].status = MilestoneStatus::Released;
    ctx.escrow_account.released_amount = released;
    assert(ctx.escrow_account.milestones =~= old(ctx).escrow_account.marked(
        index as int,
        MilestoneStatus::Released,
    ).milestones);
    ctx.escrow_account.status = if every_milestone_released(&ctx.escrow_account) {
        EscrowStatus::Completed
    } else {
        EscrowStatus::Active
    };
    Ok(payout)
}

} // verus!
