//! The rules that every escrow family shares: which status may follow which,
//! who may ask for what, and how an amount is divided.
//!
//! Each rule is a spec function. Given what the record holds and who is
//! asking, it yields the next status, or the error that names the condition
//! that was not met. Where several conditions fail at once, the rule names
//! the one that it tests first. The executable functions compute exactly
//! what the spec functions say.

use vstd::prelude::*;
use crate::errors::EscrowError;
use crate::fees::{calculate_fee, fee_of, lemma_fee_bounds, net_of, MAX_FEE_BASIS_POINTS};
use crate::state::EscrowStatus;

verus! {

/// Whom the arbiter decided for.
#[derive(Clone, Copy, Debug, PartialEq, Eq, Structural)]
pub enum DisputeWinner {
    Creator,
    Recipient,
}

/// The amounts that leave a record in one operation, by destination.
#[derive(Clone, Copy, Debug, PartialEq, Eq, Structural)]
pub struct Payout {
    /// To the fee recipient.
    pub fee: u64,
    /// To the recipient.
    pub to_recipient: u64,
    /// Back to the creator.
    pub to_creator: u64,
}

impl Payout {
    /// All that leaves the record.
    pub open spec fn total(self) -> int {
        self.fee + self.to_recipient + self.to_creator
    }
}

/// The status graph of a lump-sum escrow.
pub open spec fn may_follow(from: EscrowStatus, to: EscrowStatus) -> bool {
    match (from, to) {
        (EscrowStatus::Created, EscrowStatus::Active) => true,
        (EscrowStatus::Created, EscrowStatus::Cancelled) => true,
        (EscrowStatus::Active, EscrowStatus::Completed) => true,
        (EscrowStatus::Active, EscrowStatus::Disputed) => true,
        (EscrowStatus::Active, EscrowStatus::Refunded) => true,
        (EscrowStatus::Disputed, EscrowStatus::Resolved) => true,
        _ => false,
    }
}

/// The status graph of a milestone escrow. A release that leaves milestones
/// open keeps the record active, and the arbiter's decision on one milestone
/// hands the record back to its parties.
pub open spec fn milestone_may_follow(from: EscrowStatus, to: EscrowStatus) -> bool {
    match (from, to) {
        (EscrowStatus::Created, EscrowStatus::Active) => true,
        (EscrowStatus::Created, EscrowStatus::Cancelled) => true,
        (EscrowStatus::Active, EscrowStatus::Active) => true,
        (EscrowStatus::Active, EscrowStatus::Completed) => true,
        (EscrowStatus::Active, EscrowStatus::Disputed) => true,
        (EscrowStatus::Active, EscrowStatus::Refunded) => true,
        (EscrowStatus::Disputed, EscrowStatus::Active) => true,
        (EscrowStatus::Disputed, EscrowStatus::Completed) => true,
        _ => false,
    }
}

/// Creation is refused for a zero amount, a fee above the cap, a deadline that
/// is not in the future, or an auto-release time that is set but not after
/// the deadline.
pub open spec fn creation_verdict(
    amount: u64,
    fee_basis_points: u16,
    deadline: i64,
    auto_release_at: i64,
    now: i64,
) -> Result<EscrowStatus, EscrowError> {
    if amount == 0 {
        Err(EscrowError::ZeroAmount)
    } else if fee_basis_points > MAX_FEE_BASIS_POINTS {
        Err(EscrowError::FeeTooHigh)
    } else if deadline <= now {
        Err(EscrowError::DeadlineExpired)
    } else if auto_release_at != 0 && auto_release_at <= deadline {
        Err(EscrowError::InvalidAutoRelease)
    } else {
        Ok(EscrowStatus::Created)
    }
}

/// Only the recipient accepts, only a created record, only before the
/// deadline.
pub open spec fn accept_verdict(
    is_recipient: bool,
    status: EscrowStatus,
    deadline: i64,
    now: i64,
) -> Result<EscrowStatus, EscrowError> {
    if !is_recipient {
        Err(EscrowError::UnauthorizedRecipient)
    } else if status != EscrowStatus::Created {
        Err(EscrowError::InvalidStatus)
    } else if now >= deadline {
        Err(EscrowError::DeadlineExpired)
    } else {
        Ok(EscrowStatus::Active)
    }
}

/// Only the creator releases, only an active record.
pub open spec fn release_verdict(is_creator: bool, status: EscrowStatus) -> Result<
    EscrowStatus,
    EscrowError,
> {
    if !is_creator {
        Err(EscrowError::UnauthorizedCreator)
    } else if status != EscrowStatus::Active {
        Err(EscrowError::InvalidStatus)
    } else {
        Ok(EscrowStatus::Completed)
    }
}

/// Only the creator takes the value back: at any time while nobody has
/// accepted, and from the deadline on once somebody has.
pub open spec fn refund_verdict(
    is_creator: bool,
    status: EscrowStatus,
    deadline: i64,
    now: i64,
) -> Result<EscrowStatus, EscrowError> {
    if !is_creator {
        Err(EscrowError::UnauthorizedCreator)
    } else if status == EscrowStatus::Created {
        Ok(EscrowStatus::Cancelled)
    } else if status != EscrowStatus::Active {
        Err(EscrowError::InvalidStatus)
    } else if now < deadline {
        Err(EscrowError::DeadlineNotReached)
    } else {
        Ok(EscrowStatus::Refunded)
    }
}

/// Only an active record is disputed, and only by its creator or recipient.
pub open spec fn dispute_verdict(status: EscrowStatus, is_party: bool) -> Result<
    EscrowStatus,
    EscrowError,
> {
    if status != EscrowStatus::Active {
        Err(EscrowError::InvalidStatus)
    } else if !is_party {
        Err(EscrowError::UnauthorizedDisputer)
    } else {
        Ok(EscrowStatus::Disputed)
    }
}

/// Only a disputed record is resolved, and only by its arbiter.
pub open spec fn resolve_verdict(status: EscrowStatus, is_arbiter: bool) -> Result<
    EscrowStatus,
    EscrowError,
> {
    if status != EscrowStatus::Disputed {
        Err(EscrowError::InvalidStatus)
    } else if !is_arbiter {
        Err(EscrowError::UnauthorizedArbiter)
    } else {
        Ok(EscrowStatus::Resolved)
    }
}

/// Anyone may trigger auto-release: the verdict depends on the record and the
/// time alone, never on the caller. The record must be active, auto-release
/// must be on, and its time must have come.
pub open spec fn auto_release_verdict(status: EscrowStatus, auto_release_at: i64, now: i64) -> Result<
    EscrowStatus,
    EscrowError,
> {
    if status != EscrowStatus::Active {
        Err(EscrowError::InvalidStatus)
    } else if auto_release_at == 0 {
        Err(EscrowError::AutoReleaseNotEnabled)
    } else if now < auto_release_at {
        Err(EscrowError::AutoReleaseNotReady)
    } else {
        Ok(EscrowStatus::Completed)
    }
}

/// Payment to the recipient: the fee to the fee recipient, the rest to the
/// recipient. Refused where the fee would exceed the amount.
pub open spec fn payment(amount: u64, fee_basis_points: u16) -> Result<Payout, EscrowError> {
    if fee_of(amount as int, fee_basis_points as int) > amount {
        Err(EscrowError::Overflow)
    } else {
        Ok(
            Payout {
                fee: fee_of(amount as int, fee_basis_points as int) as u64,
                to_recipient: net_of(amount as int, fee_basis_points as int) as u64,
                to_creator: 0,
            },
        )
    }
}

/// Return of the whole amount to the creator. No fee is taken.
pub open spec fn repayment(amount: u64) -> Payout {
    Payout { fee: 0, to_recipient: 0, to_creator: amount }
}

/// What the arbiter's decision moves: payment with fee where the recipient
/// wins, the whole amount back where the creator wins.
pub open spec fn award(amount: u64, fee_basis_points: u16, winner: DisputeWinner) -> Result<
    Payout,
    EscrowError,
> {
    match winner {
        DisputeWinner::Recipient => payment(amount, fee_basis_points),
        DisputeWinner::Creator => Ok(repayment(amount)),
    }
}

/// Decides whether an escrow with these terms may be opened at `now`.
pub fn check_creation(
    amount: u64,
    fee_basis_points: u16,
    deadline: i64,
    auto_release_at: i64,
    now: i64,
) -> (r: Result<EscrowStatus, EscrowError>)
    ensures
        r == creation_verdict(amount, fee_basis_points, deadline, auto_release_at, now),
{
    if amount == 0 {
        Err(EscrowError::ZeroAmount)
    } else if fee_basis_points > MAX_FEE_BASIS_POINTS {
        Err(EscrowError::FeeTooHigh)
    } else if deadline <= now {
        Err(EscrowError::DeadlineExpired)
    } else if auto_release_at != 0 && auto_release_at <= deadline {
        Err(EscrowError::InvalidAutoRelease)
    } else {
        Ok(EscrowStatus::Created)
    }
}

/// Decides whether the task may be accepted at `now`.
pub fn check_accept(is_recipient: bool, status: EscrowStatus, deadline: i64, now: i64) -> (r: Result<
    EscrowStatus,
    EscrowError,
>)
    ensures
        r == accept_verdict(is_recipient, status, deadline, now),
{
    if !is_recipient {
        Err(EscrowError::UnauthorizedRecipient)
    } else if status != EscrowStatus::Created {
        Err(EscrowError::InvalidStatus)
    } else if now >= deadline {
        Err(EscrowError::DeadlineExpired)
    } else {
        Ok(EscrowStatus::Active)
    }
}

/// Decides whether the record may be released.
pub fn check_release(is_creator: bool, status: EscrowStatus) -> (r: Result<EscrowStatus, EscrowError>)
    ensures
        r == release_verdict(is_creator, status),
{
    if !is_creator {
        Err(EscrowError::UnauthorizedCreator)
    } else if status != EscrowStatus::Active {
        Err(EscrowError::InvalidStatus)
    } else {
        Ok(EscrowStatus::Completed)
    }
}

/// Decides whether the value may go back to the creator at `now`, and as
/// what the record is then closed.
pub fn check_refund(is_creator: bool, status: EscrowStatus, deadline: i64, now: i64) -> (r: Result<
    EscrowStatus,
    EscrowError,
>)
    ensures
        r == refund_verdict(is_creator, status, deadline, now),
{
    if !is_creator {
        return Err(EscrowError::UnauthorizedCreator);
    }
    match status {
        EscrowStatus::Created => Ok(EscrowStatus::Cancelled),
        EscrowStatus::Active => {
            if now >= deadline {
                Ok(EscrowStatus::Refunded)
            } else {
                Err(EscrowError::DeadlineNotReached)
            }
        },
        _ => Err(EscrowError::InvalidStatus),
    }
}

/// Decides whether the record may be put under dispute.
pub fn check_dispute(status: EscrowStatus, is_party: bool) -> (r: Result<EscrowStatus, EscrowError>)
    ensures
        r == dispute_verdict(status, is_party),
{
    if status != EscrowStatus::Active {
        Err(EscrowError::InvalidStatus)
    } else if !is_party {
        Err(EscrowError::UnauthorizedDisputer)
    } else {
        Ok(EscrowStatus::Disputed)
    }
}

/// Decides whether the dispute may be decided.
pub fn check_resolve(status: EscrowStatus, is_arbiter: bool) -> (r: Result<EscrowStatus, EscrowError>)
    ensures
        r == resolve_verdict(status, is_arbiter),
{
    if status != EscrowStatus::Disputed {
        Err(EscrowError::InvalidStatus)
    } else if !is_arbiter {
        Err(EscrowError::UnauthorizedArbiter)
    } else {
        Ok(EscrowStatus::Resolved)
    }
}

/// Decides whether auto-release may pay at `now`.
pub fn check_auto_release(status: EscrowStatus, auto_release_at: i64, now: i64) -> (r: Result<
    EscrowStatus,
    EscrowError,
>)
    ensures
        r == auto_release_verdict(status, auto_release_at, now),
{
    if status != EscrowStatus::Active {
        Err(EscrowError::InvalidStatus)
    } else if auto_release_at == 0 {
        Err(EscrowError::AutoReleaseNotEnabled)
    } else if now < auto_release_at {
        Err(EscrowError::AutoReleaseNotReady)
    } else {
        Ok(EscrowStatus::Completed)
    }
}

/// Divides `amount` between fee recipient and recipient.
pub fn pay(amount: u64, fee_basis_points: u16) -> (r: Result<Payout, EscrowError>)
    ensures
        r == payment(amount, fee_basis_points),
        r matches Ok(p) ==> p.total() == amount && p.fee <= amount,
        fee_basis_points <= 10_000 ==> r is Ok,
{
    match calculate_fee(amount, fee_basis_points) {
        Ok((fee, net)) => Ok(Payout { fee, to_recipient: net, to_creator: 0 }),
        Err(e) => Err(e),
    }
}

/// Hands the whole of `amount` back to the creator.
pub fn repay(amount: u64) -> (r: Payout)
    ensures
        r == repayment(amount),
        r.total() == amount,
{
    Payout { fee: 0, to_recipient: 0, to_creator: amount }
}

/// Moves `amount` as the arbiter decided.
pub fn settle(amount: u64, fee_basis_points: u16, winner: DisputeWinner) -> (r: Result<
    Payout,
    EscrowError,
>)
    ensures
        r == award(amount, fee_basis_points, winner),
        r matches Ok(p) ==> p.total() == amount,
        fee_basis_points <= 10_000 || winner == DisputeWinner::Creator ==> r is Ok,
{
    match winner {
        DisputeWinner::Recipient => pay(amount, fee_basis_points),
        DisputeWinner::Creator => Ok(repay(amount)),
    }
}

/// Whatever a lump-sum operation is granted, the status it leads to is one
/// that the graph allows after the present one.
pub proof fn lemma_granted_follows_graph(
    status: EscrowStatus,
    entitled: bool,
    deadline: i64,
    auto_release_at: i64,
    now: i64,
)
    ensures
        accept_verdict(entitled, status, deadline, now) matches Ok(next) ==> may_follow(status, next),
        release_verdict(entitled, status) matches Ok(next) ==> may_follow(status, next),
        refund_verdict(entitled, status, deadline, now) matches Ok(next) ==> may_follow(
            status,
            next,
        ),
        dispute_verdict(status, entitled) matches Ok(next) ==> may_follow(status, next),
        resolve_verdict(status, entitled) matches Ok(next) ==> may_follow(status, next),
        auto_release_verdict(status, auto_release_at, now) matches Ok(next) ==> may_follow(
            status,
            next,
        ),
{
}

/// From a status that an operation is not meant for, the operation is
/// refused, whoever asks and whenever. The reason given is the status, unless
/// the rule tests the caller first and the caller is not the party it asks
/// for.
pub proof fn lemma_wrong_status_refused(
    status: EscrowStatus,
    entitled: bool,
    deadline: i64,
    auto_release_at: i64,
    now: i64,
)
    ensures
        status != EscrowStatus::Created ==> accept_verdict(entitled, status, deadline, now) is Err
            && accept_verdict(true, status, deadline, now) == Err::<EscrowStatus, EscrowError>(
            EscrowError::InvalidStatus,
        ),
        status != EscrowStatus::Active ==> release_verdict(entitled, status) is Err
            && release_verdict(true, status) == Err::<EscrowStatus, EscrowError>(
            EscrowError::InvalidStatus,
        ),
        status != EscrowStatus::Created && status != EscrowStatus::Active ==> refund_verdict(
            entitled,
            status,
            deadline,
            now,
        ) is Err && refund_verdict(true, status, deadline, now) == Err::<EscrowStatus, EscrowError>(
            EscrowError::InvalidStatus,
        ),
        status != EscrowStatus::Active ==> dispute_verdict(status, entitled) == Err::<
            EscrowStatus,
            EscrowError,
        >(EscrowError::InvalidStatus),
        status != EscrowStatus::Disputed ==> resolve_verdict(status, entitled) == Err::<
            EscrowStatus,
            EscrowError,
        >(EscrowError::InvalidStatus),
        status != EscrowStatus::Active ==> auto_release_verdict(status, auto_release_at, now)
            == Err::<EscrowStatus, EscrowError>(EscrowError::InvalidStatus),
{
}

/// A closed record stays closed: in a terminal status every operation is
/// refused, and no status follows a terminal one in either graph.
pub proof fn lemma_terminal_is_final(
    status: EscrowStatus,
    entitled: bool,
    deadline: i64,
    auto_release_at: i64,
    now: i64,
    next: EscrowStatus,
)
    requires
        status.is_terminal(),
    ensures
        accept_verdict(entitled, status, deadline, now) is Err,
        release_verdict(entitled, status) is Err,
        refund_verdict(entitled, status, deadline, now) is Err,
        dispute_verdict(status, entitled) is Err,
        resolve_verdict(status, entitled) is Err,
        auto_release_verdict(status, auto_release_at, now) is Err,
        !may_follow(status, next),
        !milestone_may_follow(status, next),
{
}

/// Every status that the lump-sum graph allows is allowed in a milestone
/// escrow too, but for `Resolved`: a milestone escrow is never resolved as a
/// whole.
pub proof fn lemma_graphs_agree(from: EscrowStatus, to: EscrowStatus)
    ensures
        may_follow(from, to) && to != EscrowStatus::Resolved ==> milestone_may_follow(from, to),
        !milestone_may_follow(from, EscrowStatus::Resolved),
{
}

/// Whatever the arbiter decides, all of the amount leaves the record and
/// nothing more: with the fee where the recipient wins, without where the
/// creator does.
pub proof fn lemma_award_conserves(amount: u64, fee_basis_points: u16, winner: DisputeWinner)
    requires
        fee_basis_points <= MAX_FEE_BASIS_POINTS,
    ensures
        award(amount, fee_basis_points, winner) matches Ok(p) && p.total() == amount,
        winner == DisputeWinner::Creator ==> award(amount, fee_basis_points, winner) == Ok::<
            Payout,
            EscrowError,
        >(Payout { fee: 0, to_recipient: 0, to_creator: amount }),
        winner == DisputeWinner::Recipient ==> award(amount, fee_basis_points, winner) == payment(
            amount,
            fee_basis_points,
        ),
{
    lemma_fee_bounds(amount as int, fee_basis_points as int);
}

} // verus!
