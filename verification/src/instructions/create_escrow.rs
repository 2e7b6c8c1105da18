//! Opening a lump-sum escrow in the native asset.

use vstd::prelude::*;
use crate::errors::EscrowError;
use crate::reputation::{record_in, recorded_in, ReputationEvent};
use crate::rules::{check_creation, creation_verdict};
use crate::state::{reason_is_blank, EscrowAccount, EscrowStatus, Identity, ReputationAccount};

verus! {

/// The parties to the new escrow, and the reputation records of creator and
/// recipient where they keep one.
#[derive(Clone, Copy, Debug, PartialEq, Eq)]
pub struct CreateEscrow {
    /// Who funds the escrow and asks for it.
    pub creator: Identity,
    pub recipient: Identity,
    pub arbiter: Identity,
    pub fee_recipient: Identity,
    pub creator_reputation: Option<ReputationAccount>,
    pub recipient_reputation: Option<ReputationAccount>,
}

/// Whether `account` is the record that creation with these arguments opens.
pub open spec fn opens(
    ctx: CreateEscrow,
    escrow_id: u64,
    amount: u64,
    deadline: i64,
    terms_hash: [u8; 32],
    fee_basis_points: u16,
    auto_release_at: i64,
    bump: u8,
    now: i64,
    account: EscrowAccount,
) -> bool {
    &&& account.creator == ctx.creator
    &&& account.recipient == ctx.recipient
    &&& account.amount == amount
    &&& account.status == EscrowStatus::Created
    &&& account.deadline == deadline
    &&& account.terms_hash == terms_hash
    &&& account.arbiter == ctx.arbiter
    &&& account.fee_basis_points == fee_basis_points
    &&& account.fee_recipient == ctx.fee_recipient
    &&& account.created_at == now
    &&& account.escrow_id == escrow_id
    &&& account.bump == bump
    &&& reason_is_blank(account.dispute_reason)
    &&& account.auto_release_at == auto_release_at
}

/// The inputs after a creation that was not refused: creator and recipient
/// each have the event entered, where they keep a record.
pub open spec fn noted(ctx: CreateEscrow, amount: u64, now: i64) -> CreateEscrow {
    CreateEscrow {
        creator_reputation: recorded_in(
            ctx.creator_reputation,
            ReputationEvent::EscrowCreated,
            amount,
            now,
        ),
        recipient_reputation: recorded_in(
            ctx.recipient_reputation,
            ReputationEvent::EscrowReceived,
            amount,
            now,
        ),
        ..ctx
    }
}

/// Opens an escrow of `amount`, which the caller then moves from the creator
/// into the record.
///
/// Refused as `creation_verdict` says. Otherwise the result is the new
/// record, in status `Created`, with a blank dispute reason.
pub fn handler(
    ctx: &mut CreateEscrow,
    escrow_id: u64,
    amount: u64,
    deadline: i64,
    terms_hash: [u8; 32],
    fee_basis_points: u16,
    auto_release_at: i64,
    bump: u8,
    now: i64,
) -> (r: Result<EscrowAccount, EscrowError>)
    ensures
        match creation_verdict(amount, fee_basis_points, deadline, auto_release_at, now) {
            Ok(_) => {
                &&& r matches Ok(account) && opens(
                    *old(ctx),
                    escrow_id,
                    amount,
                    deadline,
                    terms_hash,
                    fee_basis_points,
                    auto_release_at,
                    bump,
                    now,
                    account,
                ) && account.wf()
                &&& *final(ctx) == noted(*old(ctx), amount, now)
            },
            Err(e) => r == Err::<EscrowAccount, EscrowError>(e) && *final(ctx) == *old(ctx),
        },
{
    match check_creation(amount, fee_basis_points, deadline, auto_release_at, now) {
        Err(e) => Err(e),
        Ok(status) => {
            record_in(&mut ctx.creator_reputation, ReputationEvent::EscrowCreated, amount, now);
            record_in(&mut ctx.recipient_reputation, ReputationEvent::EscrowReceived, amount, now);
            Ok(
                EscrowAccount {
                    creator: ctx.creator,
                    recipient: ctx.recipient,
                    amount,
                    status,
                    deadline,
                    terms_hash,
                    arbiter: ctx.arbiter,
                    fee_basis_points,
                    fee_recipient: ctx.fee_recipient,
                    created_at: now,
                    escrow_id,
                    bump,
                    dispute_reason: [0u8; 64],
                    auto_release_at,
                },
            )
        },
    }
}

} // verus!
