//! The recipient takes on the task of a token escrow.

use vstd::prelude::*;
use crate::errors::EscrowError;
use crate::rules::{accept_verdict, check_accept, may_follow};
use crate::state::{Identity, TokenEscrowAccount};

verus! {

/// The record, and who asks to accept it.
#[derive(Clone, Copy, Debug, PartialEq, Eq)]
pub struct AcceptTokenTask {
    pub escrow_account: TokenEscrowAccount,
    /// The caller.
    pub recipient: Identity,
}

/// The inputs after the call, or why it is refused.
pub open spec fn outcome(ctx: AcceptTokenTask, now: i64) -> Result<AcceptTokenTask, EscrowError> {
    match accept_verdict(
        ctx.recipient == ctx.escrow_account.recipient,
        ctx.escrow_account.status,
        ctx.escrow_account.deadline,
        now,
    ) {
        Ok(next) => Ok(
            AcceptTokenTask {
                escrow_account: TokenEscrowAccount { status: next, ..ctx.escrow_account },
                ..ctx
            },
        ),
        Err(e) => Err(e),
    }
}

/// Makes a created record active.
pub fn handler(ctx: &mut AcceptTokenTask, now: i64) -> (r: Result<(), EscrowError>)
    ensures
        match outcome(*old(ctx), now) {
            Ok(after) => r is Ok && *final(ctx) == after,
            Err(e) => r == Err::<(), EscrowError>(e) && *final(ctx) == *old(ctx),
        },
        r is Ok ==> may_follow(old(ctx).escrow_account.status, final(ctx).escrow_account.status),
        old(ctx).escrow_account.wf() ==> final(ctx).escrow_account.wf(),
{
    let is_recipient = ctx.recipient == ctx.escrow_account.recipient;
    match check_accept(is_recipient, ctx.escrow_account.status, ctx.escrow_account.deadline, now) {
        Ok(next) => {
            ctx.escrow_account.status = next;
            Ok(())
        },
        Err(e) => Err(e),
    }
}

} // verus!
