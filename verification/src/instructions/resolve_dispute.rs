//! The arbiter decides a disputed native escrow.

use vstd::prelude::*;
use crate::errors::EscrowError;
use crate::reputation::{record_in, recorded_in, ReputationEvent};
use crate::rules::{award, check_resolve, may_follow, resolve_verdict, settle, Payout};
use crate::state::{EscrowAccount, Identity, ReputationAccount};

pub use crate::rules::DisputeWinner;

verus! {

/// The record, who asks to decide it, and the reputation records of creator
/// and recipient where they keep one.
#[derive(Clone, Copy, Debug, PartialEq, Eq)]
pub struct ResolveDispute {
    pub escrow_account: EscrowAccount,
    /// The caller.
    pub arbiter: Identity,
    pub creator_reputation: Option<ReputationAccount>,
    pub recipient_reputation: Option<ReputationAccount>,
}

/// What the decision means to the creator's reputation.
pub open spec fn creator_event(winner: DisputeWinner) -> ReputationEvent {
    match winner {
        DisputeWinner::Creator => ReputationEvent::DisputeWon,
        DisputeWinner::Recipient => ReputationEvent::DisputeLost,
    }
}

/// What the decision means to the recipient's reputation.
pub open spec fn recipient_event(winner: DisputeWinner) -> ReputationEvent {
    match winner {
        DisputeWinner::Creator => ReputationEvent::DisputeLost,
        DisputeWinner::Recipient => ReputationEvent::DisputeWon,
    }
}

/// The inputs after the call and what is paid, or why it is refused.
pub open spec fn outcome(ctx: ResolveDispute, winner: DisputeWinner, now: i64) -> Result<
    (ResolveDispute, Payout),
    EscrowError,
> {
    match resolve_verdict(ctx.escrow_account.status, ctx.arbiter == ctx.escrow_account.arbiter) {
        Err(e) => Err(e),
        Ok(next) => match award(
            ctx.escrow_account.amount,
            ctx.escrow_account.fee_basis_points,
            winner,
        ) {
            Err(e) => Err(e),
            Ok(payout) => Ok(
                (
                    ResolveDispute {
                        escrow_account: EscrowAccount { status: next, ..ctx.escrow_account },
                        creator_reputation: recorded_in(
                            ctx.creator_reputation,
                            creator_event(winner),
                            ctx.escrow_account.amount,
                            now,
                        ),
                        recipient_reputation: recorded_in(
                            ctx.recipient_reputation,
                            recipient_event(winner),
                            ctx.escrow_account.amount,
                            now,
                        ),
                        ..ctx
                    },
                    payout,
                ),
            ),
        },
    }
}

/// Decides a disputed record and closes it. Where the recipient wins, the
/// fee goes to the fee recipient and the rest to the recipient; where the
/// creator wins, the whole amount goes back and no fee is taken.
pub fn handler(ctx: &mut ResolveDispute, winner: DisputeWinner, now: i64) -> (r: Result<
    Payout,
    EscrowError,
>)
    ensures
        match outcome(*old(ctx), winner, now) {
            Ok((after, payout)) => r == Ok::<Payout, EscrowError>(payout) && *final(ctx) == after,
            Err(e) => r == Err::<Payout, EscrowError>(e) && *final(ctx) == *old(ctx),
        },
        r matches Ok(payout) ==> {
            &&& payout.total() == old(ctx).escrow_account.amount
            &&& winner == DisputeWinner::Creator ==> payout.to_creator
                == old(ctx).escrow_account.amount && payout.fee == 0
            &&& winner == DisputeWinner::Recipient ==> payout.to_creator == 0
            &&& may_follow(old(ctx).escrow_account.status, final(ctx).escrow_account.status)
            &&& final(ctx).escrow_account.status.is_terminal()
        },
        old(ctx).escrow_account.wf() ==> final(ctx).escrow_account.wf() && r != Err::<
            Payout,
            EscrowError,
        >(EscrowError::Overflow),
{
    let is_arbiter = ctx.arbiter == ctx.escrow_account.arbiter;
    let next = match check_resolve(ctx.escrow_account.status, is_arbiter) {
        Ok(next) => next,
        Err(e) => { return Err(e); },
    };
    let amount = ctx.escrow_account.amount;
    let payout = match settle(amount, ctx.escrow_account.fee_basis_points, winner) {
        Ok(payout) => payout,
        Err(e) => { return Err(e); },
    };
    match winner {
        DisputeWinner::Recipient => {
            record_in(&mut ctx.recipient_reputation, ReputationEvent::DisputeWon, amount, now);
            record_in(&mut ctx.creator_reputation, ReputationEvent::DisputeLost, amount, now);
        },
        DisputeWinner::Creator => {
            record_in(&mut ctx.creator_reputation, ReputationEvent::DisputeWon, amount, now);
            record_in(&mut ctx.recipient_reputation, ReputationEvent::DisputeLost, amount, now);
        },
    }
    ctx.escrow_account.status = next;
    Ok(payout)
}

} // verus!
