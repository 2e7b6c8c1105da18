//! The creator pays the recipient of a native escrow.

use vstd::prelude::*;
use crate::errors::EscrowError;
use crate::reputation::{record_in, recorded_in, ReputationEvent};
use crate::rules::{check_release, may_follow, pay, payment, release_verdict, Payout};
use crate::state::{EscrowAccount, Identity, ReputationAccount};

verus! {

/// The record, who asks to release it, and the reputation records of creator
/// and recipient where they keep one.
#[derive(Clone, Copy, Debug, PartialEq, Eq)]
pub struct ReleasePayment {
    pub escrow_account: EscrowAccount,
    /// The caller.
    pub creator: Identity,
    pub creator_reputation: Option<ReputationAccount>,
    pub recipient_reputation: Option<ReputationAccount>,
}

/// The inputs after the call and what is paid, or why it is refused.
pub open spec fn outcome(ctx: ReleasePayment, now: i64) -> Result<
    (ReleasePayment, Payout),
    EscrowError,
> {
    match release_verdict(ctx.creator == ctx.escrow_account.creator, ctx.escrow_account.status) {
        Err(e) => Err(e),
        Ok(next) => match payment(ctx.escrow_account.amount, ctx.escrow_account.fee_basis_points) {
            Err(e) => Err(e),
            Ok(payout) => Ok(
                (
                    ReleasePayment {
                        escrow_account: EscrowAccount { status: next, ..ctx.escrow_account },
                        creator_reputation: recorded_in(
                            ctx.creator_reputation,
                            ReputationEvent::EscrowCompleted,
                            ctx.escrow_account.amount,
                            now,
                        ),
                        recipient_reputation: recorded_in(
                            ctx.recipient_reputation,
                            ReputationEvent::TaskCompleted,
                            ctx.escrow_account.amount,
                            now,
                        ),
                        ..ctx
                    },
                    payout,
                ),
            ),
        },
    }
}

/// Completes an active record: the fee goes to the fee recipient and the rest
/// to the recipient. The record is then closed.
pub fn handler(ctx: &mut ReleasePayment, now: i64) -> (r: Result<Payout, EscrowError>)
    ensures
        match outcome(*old(ctx), now) {
            Ok((after, payout)) => r == Ok::<Payout, EscrowError>(payout) && *final(ctx) == after,
            Err(e) => r == Err::<Payout, EscrowError>(e) && *final(ctx) == *old(ctx),
        },
        r matches Ok(payout) ==> {
            &&& payout.total() == old(ctx).escrow_account.amount
            &&& payout.to_creator == 0
            &&& may_follow(old(ctx).escrow_account.status, final(ctx).escrow_account.status)
            &&& final(ctx).escrow_account.status.is_terminal()
        },
        old(ctx).escrow_account.wf() ==> final(ctx).escrow_account.wf() && r != Err::<
            Payout,
            EscrowError,
        >(EscrowError::Overflow),
{
    let is_creator = ctx.creator == ctx.escrow_account.creator;
    let next = match check_release(is_creator, ctx.escrow_account.status) {
        Ok(next) => next,
        Err(e) => { return Err(e); },
    };
    let amount = ctx.escrow_account.amount;
    let payout = match pay(amount, ctx.escrow_account.fee_basis_points) {
        Ok(payout) => payout,
        Err(e) => { return Err(e); },
    };
    record_in(&mut ctx.creator_reputation, ReputationEvent::EscrowCompleted, amount, now);
    record_in(&mut ctx.recipient_reputation, ReputationEvent::TaskCompleted, amount, now);
    ctx.escrow_account.status = next;
    Ok(payout)
}

} // verus!
