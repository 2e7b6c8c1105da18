//! A party to a token escrow contests it.

use vstd::prelude::*;
use crate::errors::EscrowError;
use crate::rules::{check_dispute, dispute_verdict, may_follow};
use crate::state::{Identity, TokenEscrowAccount};

verus! {

/// The record, and who contests it.
#[derive(Clone, Copy, Debug, PartialEq, Eq)]
pub struct DisputeToken {
    pub escrow_account: TokenEscrowAccount,
    /// The caller.
    pub disputer: Identity,
}

/// The inputs after the call, or why it is refused.
pub open spec fn outcome(ctx: DisputeToken, reason: [u8; 64]) -> Result<DisputeToken, EscrowError> {
    match dispute_verdict(
        ctx.escrow_account.status,
        ctx.disputer == ctx.escrow_account.creator || ctx.disputer == ctx.escrow_account.recipient,
    ) {
        Err(e) => Err(e),
        Ok(next) => Ok(
            DisputeToken {
                escrow_account: TokenEscrowAccount {
                    status: next,
                    dispute_reason: reason,
                    ..ctx.escrow_account
                },
                ..ctx
            },
        ),
    }
}

/// Puts an active record under dispute and stores the reason.
pub fn handler(ctx: &mut DisputeToken, reason: [u8; 64]) -> (r: Result<(), EscrowError>)
    ensures
        match outcome(*old(ctx), reason) {
            Ok(after) => r is Ok && *final(ctx) == after,
            Err(e) => r == Err::<(), EscrowError>(e) && *final(ctx) == *old(ctx),
        },
        r is Ok ==> may_follow(old(ctx).escrow_account.status, final(ctx).escrow_account.status),
        old(ctx).escrow_account.wf() ==> final(ctx).escrow_account.wf(),
{
    let is_party = ctx.disputer == ctx.escrow_account.creator || ctx.disputer
        == ctx.escrow_account.recipient;
    match check_dispute(ctx.escrow_account.status, is_party) {
        Err(e) => Err(e),
        Ok(next) => {
            ctx.escrow_account.status = next;
            ctx.escrow_account.dispute_reason = reason;
            Ok(())
        },
    }
}

} // verus!
