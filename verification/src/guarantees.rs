//! What the operations guarantee together: value held by a well-formed
//! record can always leave it, it never leaves it twice, and a token escrow
//! is ruled as the native escrow with the same terms is.

use vstd::prelude::*;
use crate::fees::lemma_fee_bounds;
use crate::instructions::accept_task::{self, AcceptTask};
use crate::instructions::accept_token_task::{self, AcceptTokenTask};
use crate::instructions::auto_release::{self, AutoRelease};
use crate::instructions::auto_release_token::{self, AutoReleaseToken};
use crate::instructions::dispute_token::{self, DisputeToken};
use crate::instructions::refund_token_escrow::{self, RefundTokenEscrow};
use crate::instructions::release_token_payment::{self, ReleaseTokenPayment};
use crate::instructions::resolve_token_dispute::{self, ResolveTokenDispute};
use crate::instructions::dispute::{self, Dispute};
use crate::instructions::dispute_milestone::{self, DisputeMilestone};
use crate::instructions::refund_milestone_escrow::{self, RefundMilestoneEscrow};
use crate::instructions::release_milestone::{self, ReleaseMilestone};
use crate::instructions::release_payment::{self, ReleasePayment};
use crate::instructions::request_refund::{self, RequestRefund};
use crate::instructions::resolve_dispute::{self, ResolveDispute};
use crate::instructions::resolve_milestone_dispute::{self, ResolveMilestoneDispute};
use crate::milestones::{
    lemma_all_released_is_total, lemma_marked_live, lemma_paid_out,
    lemma_pending_released_nothing, lemma_released_within_total, payable,
};
use crate::rules::DisputeWinner;
use crate::state::{
    only_disputed, EscrowAccount, EscrowStatus, Identity, MilestoneEscrowAccount, MilestoneStatus,
    ReputationAccount, TokenEscrowAccount, MAX_MILESTONES,
};

verus! {

/// No well-formed lump-sum record holds its value for good. While nobody has
/// accepted, the creator can take it back at any time; once the task is
/// accepted, the creator can take it back from the deadline on; and under
/// dispute, the arbiter can award it to either party. Each way out moves the
/// whole amount.
pub proof fn lemma_value_can_leave(
    account: EscrowAccount,
    now: i64,
    winner: DisputeWinner,
    creator_reputation: Option<ReputationAccount>,
    recipient_reputation: Option<ReputationAccount>,
)
    requires
        account.wf(),
    ensures
        account.status == EscrowStatus::Created || (account.status == EscrowStatus::Active && now
            >= account.deadline) ==> (request_refund::outcome(
            RequestRefund { escrow_account: account, creator: account.creator },
            now,
        ) matches Ok((_, payout)) && payout.to_creator == account.amount),
        account.status == EscrowStatus::Disputed ==> (resolve_dispute::outcome(
            ResolveDispute {
                escrow_account: account,
                arbiter: account.arbiter,
                creator_reputation,
                recipient_reputation,
            },
            winner,
            now,
        ) matches Ok((_, payout)) && payout.total() == account.amount),
{
    lemma_fee_bounds(account.amount as int, account.fee_basis_points as int);
}

/// A closed lump-sum record pays nothing more: in a terminal status every
/// operation on it is refused, whoever asks and whenever.
pub proof fn lemma_closed_pays_nothing(
    account: EscrowAccount,
    caller: Identity,
    now: i64,
    reason: [u8; 64],
    winner: DisputeWinner,
    creator_reputation: Option<ReputationAccount>,
    recipient_reputation: Option<ReputationAccount>,
)
    requires
        account.status.is_terminal(),
    ensures
        accept_task::outcome(AcceptTask { escrow_account: account, recipient: caller }, now) is Err,
        release_payment::outcome(
            ReleasePayment {
                escrow_account: account,
                creator: caller,
                creator_reputation,
                recipient_reputation,
            },
            now,
        ) is Err,
        request_refund::outcome(RequestRefund { escrow_account: account, creator: caller }, now)
            is Err,
        dispute::outcome(
            Dispute { escrow_account: account, disputer: caller, disputer_reputation: None },
            reason,
            now,
        ) is Err,
        resolve_dispute::outcome(
            ResolveDispute {
                escrow_account: account,
                arbiter: caller,
                creator_reputation,
                recipient_reputation,
            },
            winner,
            now,
        ) is Err,
        auto_release::outcome(
            AutoRelease { escrow_account: account, caller, creator_reputation, recipient_reputation },
            now,
        ) is Err,
{
}

/// Every operation that pays out of a lump-sum record closes it, so that by
/// `lemma_closed_pays_nothing` it pays once.
pub proof fn lemma_payment_closes(
    account: EscrowAccount,
    caller: Identity,
    now: i64,
    winner: DisputeWinner,
    creator_reputation: Option<ReputationAccount>,
    recipient_reputation: Option<ReputationAccount>,
)
    ensures
        release_payment::outcome(
            ReleasePayment {
                escrow_account: account,
                creator: caller,
                creator_reputation,
                recipient_reputation,
            },
            now,
        ) matches Ok((after, _)) ==> after.escrow_account.status.is_terminal(),
        request_refund::outcome(
            RequestRefund { escrow_account: account, creator: caller },
            now,
        ) matches Ok((after, _)) ==> after.escrow_account.status.is_terminal(),
        resolve_dispute::outcome(
            ResolveDispute {
                escrow_account: account,
                arbiter: caller,
                creator_reputation,
                recipient_reputation,
            },
            winner,
            now,
        ) matches Ok((after, _)) ==> after.escrow_account.status.is_terminal(),
        auto_release::outcome(
            AutoRelease { escrow_account: account, caller, creator_reputation, recipient_reputation },
            now,
        ) matches Ok((after, _)) ==> after.escrow_account.status.is_terminal(),
{
}

/// No well-formed milestone record holds value for good. While nobody has
/// accepted, the creator can take the whole total back at any time; once the
/// task is accepted, the creator can take back what is not released from the
/// deadline on; under dispute there is a milestone that the arbiter can
/// decide for either party; and a completed record holds nothing.
pub proof fn lemma_milestone_value_can_leave(
    account: MilestoneEscrowAccount,
    now: i64,
    winner: DisputeWinner,
)
    requires
        account.wf(),
    ensures
        account.status == EscrowStatus::Created ==> (refund_milestone_escrow::outcome(
            RefundMilestoneEscrow { escrow_account: account, creator: account.creator },
            now,
        ) matches Ok((_, payout)) && payout.to_creator == account.total_amount),
        account.status == EscrowStatus::Active && now >= account.deadline ==> (
        refund_milestone_escrow::outcome(
            RefundMilestoneEscrow { escrow_account: account, creator: account.creator },
            now,
        ) matches Ok((_, payout)) && payout.to_creator == account.unreleased()),
        account.status == EscrowStatus::Disputed ==> exists|index: u8|
            #![trigger account.milestones[index as int]]
            resolve_milestone_dispute::outcome(
                ResolveMilestoneDispute { escrow_account: account, arbiter: account.arbiter },
                index,
                winner,
            ) matches Ok((_, payout)) && payout.total() == account.milestones[index as int].amount,
        account.status == EscrowStatus::Completed ==> account.unreleased() == 0,
{
    lemma_released_within_total(account.live());
    if account.status == EscrowStatus::Created {
        lemma_pending_released_nothing(account.live());
    }
    if account.status == EscrowStatus::Completed {
        lemma_all_released_is_total(account.live());
    }
    if account.status == EscrowStatus::Disputed {
        let d = choose|d: int| only_disputed(account.live(), d);
        let index = d as u8;
        assert(account.live()[d] == account.milestones[d]);
        assert(payable(account, d));
        lemma_paid_out(account, d);
        lemma_fee_bounds(
            account.milestones[d].amount as int,
            account.fee_basis_points as int,
        );
        assert(resolve_milestone_dispute::outcome(
            ResolveMilestoneDispute { escrow_account: account, arbiter: account.arbiter },
            index,
            winner,
        ) matches Ok((_, payout)) && payout.total() == account.milestones[index as int].amount);
    }
}

/// A milestone is paid once. On the record that a release leaves, the
/// milestone that was paid can be neither released again, nor contested,
/// nor decided, whoever asks.
pub proof fn lemma_milestone_paid_once(
    ctx: ReleaseMilestone,
    index: u8,
    caller: Identity,
    winner: DisputeWinner,
)
    requires
        ctx.escrow_account.milestone_count <= MAX_MILESTONES,
    ensures
        release_milestone::outcome(ctx, index) matches Ok((after, _)) ==> {
            &&& after.escrow_account.milestones[index as int].status == MilestoneStatus::Released
            &&& release_milestone::outcome(
                ReleaseMilestone { escrow_account: after.escrow_account, creator: caller },
                index,
            ) is Err
            &&& dispute_milestone::outcome(
                DisputeMilestone { escrow_account: after.escrow_account, disputer: caller },
                index,
            ) is Err
            &&& resolve_milestone_dispute::outcome(
                ResolveMilestoneDispute { escrow_account: after.escrow_account, arbiter: caller },
                index,
                winner,
            ) is Err
        },
{
    if release_milestone::outcome(ctx, index) is Ok {
        lemma_marked_live(ctx.escrow_account, index as int, MilestoneStatus::Released);
        let after = ctx.escrow_account.paid_out(index as int);
        assert(after.milestones@[index as int] == after.live()[index as int]);
    }
}

/// What the arbiter decides is paid once too: on the record that a decision
/// leaves, the milestone is released, and no second decision on it is
/// granted.
pub proof fn lemma_milestone_decided_once(
    ctx: ResolveMilestoneDispute,
    index: u8,
    winner: DisputeWinner,
    caller: Identity,
    again: DisputeWinner,
)
    requires
        ctx.escrow_account.milestone_count <= MAX_MILESTONES,
    ensures
        resolve_milestone_dispute::outcome(ctx, index, winner) matches Ok((after, _)) ==> {
            &&& after.escrow_account.milestones[index as int].status == MilestoneStatus::Released
            &&& resolve_milestone_dispute::outcome(
                ResolveMilestoneDispute { escrow_account: after.escrow_account, arbiter: caller },
                index,
                again,
            ) is Err
            &&& release_milestone::outcome(
                ReleaseMilestone { escrow_account: after.escrow_account, creator: caller },
                index,
            ) is Err
        },
{
    if resolve_milestone_dispute::outcome(ctx, index, winner) is Ok {
        lemma_marked_live(ctx.escrow_account, index as int, MilestoneStatus::Released);
        let after = ctx.escrow_account.paid_out(index as int);
        assert(after.milestones@[index as int] == after.live()[index as int]);
    }
}

/// A token escrow is ruled as the native escrow with the same terms is:
/// each operation is granted to the same callers at the same times, refused
/// for the same reason, leads to the same status and moves the same amounts.
/// Which token is held never changes.
pub proof fn lemma_token_as_native(
    account: TokenEscrowAccount,
    caller: Identity,
    now: i64,
    reason: [u8; 64],
    winner: DisputeWinner,
)
    ensures
        match (
            accept_token_task::outcome(
                AcceptTokenTask { escrow_account: account, recipient: caller },
                now,
            ),
            accept_task::outcome(
                AcceptTask { escrow_account: account.as_escrow(), recipient: caller },
                now,
            ),
        ) {
            (Ok(token), Ok(native)) => token.escrow_account.as_escrow() == native.escrow_account
                && token.escrow_account.mint == account.mint,
            (Err(token), Err(native)) => token == native,
            _ => false,
        },
        match (
            release_token_payment::outcome(
                ReleaseTokenPayment { escrow_account: account, creator: caller },
            ),
            release_payment::outcome(
                ReleasePayment {
                    escrow_account: account.as_escrow(),
                    creator: caller,
                    creator_reputation: None,
                    recipient_reputation: None,
                },
                now,
            ),
        ) {
            (Ok((token, paid)), Ok((native, due))) => token.escrow_account.as_escrow()
                == native.escrow_account && token.escrow_account.mint == account.mint && paid == due,
            (Err(token), Err(native)) => token == native,
            _ => false,
        },
        match (
            refund_token_escrow::outcome(
                RefundTokenEscrow { escrow_account: account, creator: caller },
                now,
            ),
            request_refund::outcome(
                RequestRefund { escrow_account: account.as_escrow(), creator: caller },
                now,
            ),
        ) {
            (Ok((token, paid)), Ok((native, due))) => token.escrow_account.as_escrow()
                == native.escrow_account && token.escrow_account.mint == account.mint && paid == due,
            (Err(token), Err(native)) => token == native,
            _ => false,
        },
        match (
            dispute_token::outcome(DisputeToken { escrow_account: account, disputer: caller }, reason),
            dispute::outcome(
                Dispute {
                    escrow_account: account.as_escrow(),
                    disputer: caller,
                    disputer_reputation: None,
                },
                reason,
                now,
            ),
        ) {
            (Ok(token), Ok(native)) => token.escrow_account.as_escrow() == native.escrow_account
                && token.escrow_account.mint == account.mint,
            (Err(token), Err(native)) => token == native,
            _ => false,
        },
        match (
            resolve_token_dispute::outcome(
                ResolveTokenDispute { escrow_account: account, arbiter: caller },
                winner,
            ),
            resolve_dispute::outcome(
                ResolveDispute {
                    escrow_account: account.as_escrow(),
                    arbiter: caller,
                    creator_reputation: None,
                    recipient_reputation: None,
                },
                winner,
                now,
            ),
        ) {
            (Ok((token, paid)), Ok((native, due))) => token.escrow_account.as_escrow()
                == native.escrow_account && token.escrow_account.mint == account.mint && paid == due,
            (Err(token), Err(native)) => token == native,
            _ => false,
        },
        match (
            auto_release_token::outcome(AutoReleaseToken { escrow_account: account, caller }, now),
            auto_release::outcome(
                AutoRelease {
                    escrow_account: account.as_escrow(),
                    caller,
                    creator_reputation: None,
                    recipient_reputation: None,
                },
                now,
            ),
        ) {
            (Ok((token, paid)), Ok((native, due))) => token.escrow_account.as_escrow()
                == native.escrow_account && token.escrow_account.mint == account.mint && paid == due,
            (Err(token), Err(native)) => token == native,
            _ => false,
        },
{
}

} // verus!
