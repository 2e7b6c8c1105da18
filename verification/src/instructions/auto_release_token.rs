//! Anyone pays the recipient of a token escrow once its auto-release time has
//! come.

use vstd::prelude::*;
use crate::errors::EscrowError;
use crate::fees::lemma_fee_bounds;
use crate::rules::{auto_release_verdict, check_auto_release, may_follow, pay, payment, Payout};
use crate::state::{EscrowStatus, Identity, TokenEscrowAccount};

verus! {

/// The record, and who triggers the release.
#[derive(Clone, Copy, Debug, PartialEq, Eq)]
pub struct AutoReleaseToken {
    pub escrow_account: TokenEscrowAccount,
    /// The caller. Anyone will do: no rule reads this field.
    pub caller: Identity,
}

/// The inputs after the call and what is paid, or why it is refused.
pub open spec fn outcome(ctx: AutoReleaseToken, now: i64) -> Result<
    (AutoReleaseToken, Payout),
    EscrowError,
> {
    match auto_release_verdict(
        ctx.escrow_account.status,
        ctx.escrow_account.auto_release_at,
        now,
    ) {
        Err(e) => Err(e),
        Ok(next) => match payment(ctx.escrow_account.amount, ctx.escrow_account.fee_basis_points) {
            Err(e) => Err(e),
            Ok(payout) => Ok(
                (
                    AutoReleaseToken {
                        escrow_account: TokenEscrowAccount { status: next, ..ctx.escrow_account },
                        ..ctx
                    },
                    payout,
                ),
            ),
        },
    }
}

/// Completes an active record whose auto-release time has come, paying as a
/// release by the creator would. The holding account and the record are then
/// closed.
///
/// This is the one operation that asks nothing of its caller: it can only
/// pay the parties that the record names.
pub fn handler(ctx: &mut AutoReleaseToken, now: i64) -> (r: Result<Payout, EscrowError>)
    ensures
        match outcome(*old(ctx), now) {
            Ok((after, payout)) => r == Ok::<Payout, EscrowError>(payout) && *final(ctx) == after,
            Err(e) => r == Err::<Payout, EscrowError>(e) && *final(ctx) == *old(ctx),
        },
        r matches Ok(payout) ==> {
            &&& payout.total() == old(ctx).escrow_account.amount
            &&& payout.to_creator == 0
            &&& may_follow(old(ctx).escrow_account.status, final(ctx).escrow_account.status)
            &&& final(ctx).escrow_account.status.is_terminal()
        },
        old(ctx).escrow_account.wf() ==> final(ctx).escrow_account.wf() && r != Err::<
            Payout,
            EscrowError,
        >(EscrowError::Overflow),
{
    let next = match check_auto_release(
        ctx.escrow_account.status,
        ctx.escrow_account.auto_release_at,
        now,
    ) {
        Ok(next) => next,
        Err(e) => { return Err(e); },
    };
    let payout = match pay(ctx.escrow_account.amount, ctx.escrow_account.fee_basis_points) {
        Ok(payout) => payout,
        Err(e) => { return Err(e); },
    };
    ctx.escrow_account.status = next;
    Ok(payout)
}

/// Auto-release of a token escrow pays once: refused as not ready before its
/// time, paying and closing from its time on, and refused for the status on
/// the record that it leaves, whenever and by whomever it is tried again.
pub proof fn lemma_auto_release_once(ctx: AutoReleaseToken, now: i64, anyone: Identity, later: i64)
    requires
        ctx.escrow_account.wf(),
        ctx.escrow_account.status == EscrowStatus::Active,
        ctx.escrow_account.auto_release_at != 0,
    ensures
        now < ctx.escrow_account.auto_release_at ==> outcome(ctx, now) == Err::<
            (AutoReleaseToken, Payout),
            EscrowError,
        >(EscrowError::AutoReleaseNotReady),
        now >= ctx.escrow_account.auto_release_at ==> {
            &&& outcome(ctx, now) matches Ok((after, payout))
            &&& payment(ctx.escrow_account.amount, ctx.escrow_account.fee_basis_points) == Ok::<
                Payout,
                EscrowError,
            >(payout)
            &&& payout.total() == ctx.escrow_account.amount
            &&& after.escrow_account.status == EscrowStatus::Completed
            &&& outcome(AutoReleaseToken { caller: anyone, ..after }, later) == Err::<
                (AutoReleaseToken, Payout),
                EscrowError,
            >(EscrowError::InvalidStatus)
        },
{
    lemma_fee_bounds(
        ctx.escrow_account.amount as int,
        ctx.escrow_account.fee_basis_points as int,
    );
}

} // verus!
