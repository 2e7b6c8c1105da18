//! A party to a native escrow contests it.

use vstd::prelude::*;
use crate::errors::EscrowError;
use crate::reputation::{record_in, recorded_in, ReputationEvent};
use crate::rules::{check_dispute, dispute_verdict, may_follow};
use crate::state::{EscrowAccount, Identity, ReputationAccount};

verus! {

/// The record, who contests it, and that party's reputation record where it
/// keeps one.
#[derive(Clone, Copy, Debug, PartialEq, Eq)]
pub struct Dispute {
    pub escrow_account: EscrowAccount,
    /// The caller.
    pub disputer: Identity,
    pub disputer_reputation: Option<ReputationAccount>,
}

/// The inputs after the call, or why it is refused.
pub open spec fn outcome(ctx: Dispute, reason: [u8; 64], now: i64) -> Result<Dispute, EscrowError> {
    match dispute_verdict(
        ctx.escrow_account.status,
        ctx.disputer == ctx.escrow_account.creator || ctx.disputer == ctx.escrow_account.recipient,
    ) {
        Err(e) => Err(e),
        Ok(next) => Ok(
            Dispute {
                escrow_account: EscrowAccount {
                    status: next,
                    dispute_reason: reason,
                    ..ctx.escrow_account
                },
                disputer_reputation: recorded_in(
                    ctx.disputer_reputation,
                    ReputationEvent::DisputeInitiated,
                    ctx.escrow_account.amount,
                    now,
                ),
                ..ctx
            },
        ),
    }
}

/// Puts an active record under dispute and stores the reason. The dispute
/// counts for the disputer whatever the amount.
pub fn handler(ctx: &mut Dispute, reason: [u8; 64], now: i64) -> (r: Result<(), EscrowError>)
    ensures
        match outcome(*old(ctx), reason, now) {
            Ok(after) => r is Ok && *final(ctx) == after,
            Err(e) => r == Err::<(), EscrowError>(e) && *final(ctx) == *old(ctx),
        },
        r is Ok ==> may_follow(old(ctx).escrow_account.status, final(ctx).escrow_account.status),
        old(ctx).escrow_account.wf() ==> final(ctx).escrow_account.wf(),
{
    let is_party = ctx.disputer == ctx.escrow_account.creator || ctx.disputer
        == ctx.escrow_account.recipient;
    match check_dispute(ctx.escrow_account.status, is_party) {
        Err(e) => Err(e),
        Ok(next) => {
            record_in(
                &mut ctx.disputer_reputation,
                ReputationEvent::DisputeInitiated,
                ctx.escrow_account.amount,
                now,
            );
            ctx.escrow_account.status = next;
            ctx.escrow_account.dispute_reason = reason;
            Ok(())
        },
    }
}

} // verus!
