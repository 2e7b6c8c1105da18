//! Anyone pays the recipient of a native escrow once its auto-release time
//! has come.

use vstd::prelude::*;
use crate::errors::EscrowError;
use crate::fees::lemma_fee_bounds;
use crate::reputation::{record_in, recorded_in, ReputationEvent};
use crate::rules::{auto_release_verdict, check_auto_release, may_follow, pay, payment, Payout};
use crate::state::{EscrowAccount, EscrowStatus, Identity, ReputationAccount};

verus! {

/// The record, who triggers the release, and the reputation records of
/// creator and recipient where they keep one.
#[derive(Clone, Copy, Debug, PartialEq, Eq)]
pub struct AutoRelease {
    pub escrow_account: EscrowAccount,
    /// The caller. Anyone will do: no rule reads this field.
    pub caller: Identity,
    pub creator_reputation: Option<ReputationAccount>,
    pub recipient_reputation: Option<ReputationAccount>,
}

/// The inputs after the call and what is paid, or why it is refused.
pub open spec fn outcome(ctx: AutoRelease, now: i64) -> Result<(AutoRelease, Payout), EscrowError> {
    match auto_release_verdict(
        ctx.escrow_account.status,
        ctx.escrow_account.auto_release_at,
        now,
    ) {
        Err(e) => Err(e),
        Ok(next) => match payment(ctx.escrow_account.amount, ctx.escrow_account.fee_basis_points) {
            Err(e) => Err(e),
            Ok(payout) => Ok(
                (
                    AutoRelease {
                        escrow_account: EscrowAccount { status: next, ..ctx.escrow_account },
                        creator_reputation: recorded_in(
                            ctx.creator_reputation,
                            ReputationEvent::EscrowCompleted,
                            ctx.escrow_account.amount,
                            now,
                        ),
                        recipient_reputation: recorded_in(
                            ctx.recipient_reputation,
                            ReputationEvent::TaskCompleted,
                            ctx.escrow_account.amount,
                            now,
                        ),
                        ..ctx
                    },
                    payout,
                ),
            ),
        },
    }
}

/// Completes an active record whose auto-release time has come, paying as a
/// release by the creator would. The record is then closed.
///
/// This is the one operation that asks nothing of its caller: it can only
/// pay the parties that the record names.
pub fn handler(ctx: &mut AutoRelease, now: i64) -> (r: Result<Payout, EscrowError>)
    ensures
        match outcome(*old(ctx), now) {
            Ok((after, payout)) => r == Ok::<Payout, EscrowError>(payout) && *final(ctx) == after,
            Err(e) => r == Err::<Payout, EscrowError>(e) && *final(ctx) == *old(ctx),
        },
        r matches Ok(payout) ==> {
            &&& payout.total() == old(ctx).escrow_account.amount
            &&& payout.to_creator == 0
            &&& may_follow(old(ctx).escrow_account.status, final(ctx).escrow_account.status)
            &&& final(ctx).escrow_account.status.is_terminal()
        },
        old(ctx).escrow_account.wf() ==> final(ctx).escrow_account.wf() && r != Err::<
            Payout,
            EscrowError,
        >(EscrowError::Overflow),
{
    let next = match check_auto_release(
        ctx.escrow_account.status,
        ctx.escrow_account.auto_release_at,
        now,
    ) {
        Ok(next) => next,
        Err(e) => { return Err(e); },
    };
    let amount = ctx.escrow_account.amount;
    let payout = match pay(amount, ctx.escrow_account.fee_basis_points) {
        Ok(payout) => payout,
        Err(e) => { return Err(e); },
    };
    record_in(&mut ctx.creator_reputation, ReputationEvent::EscrowCompleted, amount, now);
    record_in(&mut ctx.recipient_reputation, ReputationEvent::TaskCompleted, amount, now);
    ctx.escrow_account.status = next;
    Ok(payout)
}

/// Auto-release pays once. Before its time it is refused as not ready; from
/// its time on it pays the recipient and the fee recipient and closes the
/// record as completed; and on the record that it leaves, a second call is
/// refused for the status, whenever it comes and whoever makes it.
pub proof fn lemma_auto_release_once(ctx: AutoRelease, now: i64, anyone: Identity, later: i64)
    requires
        ctx.escrow_account.wf(),
        ctx.escrow_account.status == EscrowStatus::Active,
        ctx.escrow_account.auto_release_at != 0,
    ensures
        now < ctx.escrow_account.auto_release_at ==> outcome(ctx, now) == Err::<
            (AutoRelease, Payout),
            EscrowError,
        >(EscrowError::AutoReleaseNotReady),
        now >= ctx.escrow_account.auto_release_at ==> {
            &&& outcome(ctx, now) matches Ok((after, payout))
            &&& payment(ctx.escrow_account.amount, ctx.escrow_account.fee_basis_points) == Ok::<
                Payout,
                EscrowError,
            >(payout)
            &&& payout.total() == ctx.escrow_account.amount
            &&& after.escrow_account.status == EscrowStatus::Completed
            &&& outcome(AutoRelease { caller: anyone, ..after }, later) == Err::<
                (AutoRelease, Payout),
                EscrowError,
            >(EscrowError::InvalidStatus)
        },
{
    lemma_fee_bounds(
        ctx.escrow_account.amount as int,
        ctx.escrow_account.fee_basis_points as int,
    );
}

} // verus!
