//! Opening a lump-sum escrow in a fungible token.

use vstd::prelude::*;
use crate::errors::EscrowError;
use crate::rules::{check_creation, creation_verdict};
use crate::state::{reason_is_blank, EscrowStatus, Identity, TokenEscrowAccount};

verus! {

/// The parties to the new escrow and the token it is held in.
#[derive(Clone, Copy, Debug, PartialEq, Eq)]
pub struct CreateTokenEscrow {
    /// Who funds the escrow and asks for it.
    pub creator: Identity,
    pub recipient: Identity,
    pub arbiter: Identity,
    pub fee_recipient: Identity,
    pub mint: Identity,
}

/// Whether `account` is the record that creation with these arguments opens.
pub open spec fn opens(
    ctx: CreateTokenEscrow,
    escrow_id: u64,
    amount: u64,
    deadline: i64,
    terms_hash: [u8; 32],
    fee_basis_points: u16,
    auto_release_at: i64,
    bump: u8,
    now: i64,
    account: TokenEscrowAccount,
) -> bool {
    &&& account.creator == ctx.creator
    &&& account.recipient == ctx.recipient
    &&& account.mint == ctx.mint
    &&& account.amount == amount
    &&& account.status == EscrowStatus::Created
    &&& account.deadline == deadline
    &&& account.terms_hash == terms_hash
    &&& account.arbiter == ctx.arbiter
    &&& account.fee_basis_points == fee_basis_points
    &&& account.fee_recipient == ctx.fee_recipient
    &&& account.created_at == now
    &&& account.escrow_id == escrow_id
    &&& account.bump == bump
    &&& reason_is_blank(account.dispute_reason)
    &&& account.auto_release_at == auto_release_at
}

/// Opens an escrow of `amount` of the token, which the caller then moves from
/// the creator's token account into the record's holding account.
///
/// Refused as `creation_verdict` says. Otherwise the result is the new
/// record, in status `Created`, with a blank dispute reason.
pub fn handler(
    ctx: &CreateTokenEscrow,
    escrow_id: u64,
    amount: u64,
    deadline: i64,
    terms_hash: [u8; 32],
    fee_basis_points: u16,
    auto_release_at: i64,
    bump: u8,
    now: i64,
) -> (r: Result<TokenEscrowAccount, EscrowError>)
    ensures
        match creation_verdict(amount, fee_basis_points, deadline, auto_release_at, now) {
            Ok(_) => r matches Ok(account) && opens(
                *ctx,
                escrow_id,
                amount,
                deadline,
                terms_hash,
                fee_basis_points,
                auto_release_at,
                bump,
                now,
                account,
            ) && account.wf(),
            Err(e) => r == Err::<TokenEscrowAccount, EscrowError>(e),
        },
{
    match check_creation(amount, fee_basis_points, deadline, auto_release_at, now) {
        Err(e) => Err(e),
        Ok(status) => Ok(
            TokenEscrowAccount {
                creator: ctx.creator,
                recipient: ctx.recipient,
                mint: ctx.mint,
                amount,
                status,
                deadline,
                terms_hash,
                arbiter: ctx.arbiter,
                fee_basis_points,
                fee_recipient: ctx.fee_recipient,
                created_at: now,
                escrow_id,
                bump,
                dispute_reason: [0u8; 64],
                auto_release_at,
            },
        ),
    }
}

} // verus!
