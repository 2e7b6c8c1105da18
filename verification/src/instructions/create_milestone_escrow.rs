//! Opening an escrow whose value is split into milestones.

use vstd::prelude::*;
use crate::errors::EscrowError;
use crate::fees::MAX_FEE_BASIS_POINTS;
use crate::state::{
    released_of, total_of, EscrowStatus, Identity, Milestone, MilestoneEscrowAccount,
    MilestoneStatus, MAX_MILESTONES,
};

verus! {

/// One milestone as the creator asks for it.
#[derive(Clone, Copy, Debug, PartialEq, Eq)]
pub struct MilestoneInput {
    pub amount: u64,
    /// Digest of what the milestone asks for.
    pub description_hash: [u8; 32],
}

/// The parties to the new escrow.
#[derive(Clone, Copy, Debug, PartialEq, Eq)]
pub struct CreateMilestoneEscrow {
    /// Who funds the escrow and asks for it.
    pub creator: Identity,
    pub recipient: Identity,
    pub arbiter: Identity,
    pub fee_recipient: Identity,
}

/// The sum of the amounts asked for.
pub open spec fn requested_total(inputs: Seq<MilestoneInput>) -> int
    decreases inputs.len(),
{
    if inputs.len() == 0 {
        0
    } else {
        requested_total(inputs.drop_last()) + inputs.last().amount
    }
}

/// The milestone that `input` asks for, not yet paid.
pub open spec fn pending(input: MilestoneInput) -> Milestone {
    Milestone {
        amount: input.amount,
        status: MilestoneStatus::Pending,
        description_hash: input.description_hash,
    }
}

/// Creation is refused for no milestone or more than the record has slots
/// for, a fee above the cap, a deadline that is not in the future, a sum of
/// amounts that leaves the range of 64 bits, or a sum of zero.
pub open spec fn creation_verdict(
    inputs: Seq<MilestoneInput>,
    fee_basis_points: u16,
    deadline: i64,
    now: i64,
) -> Result<EscrowStatus, EscrowError> {
    if inputs.len() == 0 || inputs.len() > MAX_MILESTONES {
        Err(EscrowError::TooManyMilestones)
    } else if fee_basis_points > MAX_FEE_BASIS_POINTS {
        Err(EscrowError::FeeTooHigh)
    } else if deadline <= now {
        Err(EscrowError::DeadlineExpired)
    } else if requested_total(inputs) > u64::MAX {
        Err(EscrowError::Overflow)
    } else if requested_total(inputs) == 0 {
        Err(EscrowError::ZeroAmount)
    } else {
        Ok(EscrowStatus::Created)
    }
}

/// Whether `account` is the record that creation with these arguments opens:
/// the total is the sum of the amounts asked for, nothing is released, and
/// the milestones are those asked for, in order and pending, with the other
/// slots empty.
pub open spec fn opens(
    ctx: CreateMilestoneEscrow,
    escrow_id: u64,
    deadline: i64,
    terms_hash: [u8; 32],
    fee_basis_points: u16,
    inputs: Seq<MilestoneInput>,
    bump: u8,
    now: i64,
    account: MilestoneEscrowAccount,
) -> bool {
    &&& account.creator == ctx.creator
    &&& account.recipient == ctx.recipient
    &&& account.total_amount == requested_total(inputs)
    &&& account.released_amount == 0
    &&& account.status == EscrowStatus::Created
    &&& account.deadline == deadline
    &&& account.terms_hash == terms_hash
    &&& account.arbiter == ctx.arbiter
    &&& account.fee_basis_points == fee_basis_points
    &&& account.fee_recipient == ctx.fee_recipient
    &&& account.created_at == now
    &&& account.escrow_id == escrow_id
    &&& account.bump == bump
    &&& account.milestone_count == inputs.len()
    &&& account.live() == inputs.map_values(|input: MilestoneInput| pending(input))
    &&& forall|i: int|
        inputs.len() <= i < MAX_MILESTONES ==> (#[trigger] account.milestones[i]).is_empty()
}

/// A longer prefix asks for no less.
pub proof fn lemma_prefix_total(inputs: Seq<MilestoneInput>, n: int)
    requires
        0 <= n <= inputs.len(),
    ensures
        0 <= requested_total(inputs.take(n)) <= requested_total(inputs),
    decreases inputs.len() - n,
{
    if n == inputs.len() {
        assert(inputs.take(n) =~= inputs);
        lemma_total_nonnegative(inputs);
    } else {
        lemma_prefix_total(inputs, n + 1);
        assert(inputs.take(n + 1).drop_last() =~= inputs.take(n));
        lemma_total_nonnegative(inputs.take(n));
    }
}

/// No sum of amounts is negative.
pub proof fn lemma_total_nonnegative(inputs: Seq<MilestoneInput>)
    ensures
        0 <= requested_total(inputs),
    decreases inputs.len(),
{
    if inputs.len() > 0 {
        lemma_total_nonnegative(inputs.drop_last());
    }
}

/// Pending milestones made from what was asked for sum to what was asked
/// for, and none of it is released.
pub proof fn lemma_pending_sums(inputs: Seq<MilestoneInput>)
    ensures
        total_of(inputs.map_values(|input: MilestoneInput| pending(input))) == requested_total(
            inputs,
        ),
        released_of(inputs.map_values(|input: MilestoneInput| pending(input))) == 0,
    decreases inputs.len(),
{
    let made = inputs.map_values(|input: MilestoneInput| pending(input));
    if inputs.len() > 0 {
        lemma_pending_sums(inputs.drop_last());
        assert(made.drop_last() =~= inputs.drop_last().map_values(
            |input: MilestoneInput| pending(input),
        ));
        assert(made.last() == pending(inputs.last()));
    }
}

/// Opens a milestone escrow. The caller then moves the record's total from
/// the creator into the record.
///
/// Refused as `creation_verdict` says. Otherwise the result is the new
/// record, in status `Created`, whose total is exactly the sum of the
/// amounts asked for.
pub fn handler(
    ctx: &CreateMilestoneEscrow,
    escrow_id: u64,
    deadline: i64,
    terms_hash: [u8; 32],
    fee_basis_points: u16,
    milestones: Vec<MilestoneInput>,
    bump: u8,
    now: i64,
) -> (r: Result<MilestoneEscrowAccount, EscrowError>)
    ensures
        match creation_verdict(milestones@, fee_basis_points, deadline, now) {
            Ok(_) => r matches Ok(account) && opens(
                *ctx,
                escrow_id,
                deadline,
                terms_hash,
                fee_basis_points,
                milestones@,
                bump,
                now,
                account,
            ) && account.wf() && account.total_amount == total_of(account.live()),
            Err(e) => r == Err::<MilestoneEscrowAccount, EscrowError>(e),
        },
{
    let count: usize = milestones.len();
    if count == 0 || count > MAX_MILESTONES {
        return Err(EscrowError::TooManyMilestones);
    }
    if fee_basis_points > MAX_FEE_BASIS_POINTS {
        return Err(EscrowError::FeeTooHigh);
    }
    if deadline <= now {
        return Err(EscrowError::DeadlineExpired);
    }
    let mut total_amount: u64 = 0;
    let mut i: usize = 0;
    while i < count
        invariant
            i <= count,
            count == milestones.len(),
            0 < count <= MAX_MILESTONES,
            fee_basis_points <= MAX_FEE_BASIS_POINTS,
            deadline > now,
            total_amount == requested_total(milestones@.take(i as int)),
        decreases count - i,
    {
        proof {
            assert(milestones@.take(i + 1).drop_last() =~= milestones@.take(i as int));
            assert(milestones@.take(i + 1).last() == milestones@[i as int]);
            assert(requested_total(milestones@.take(i + 1)) == total_amount
                + milestones@[i as int].amount);
            lemma_prefix_total(milestones@, i + 1);
        }
        total_amount = match total_amount.checked_add(milestones[i].amount) {
            Some(sum) => sum,
            None => { return Err(EscrowError::Overflow); },
        };
        i = i + 1;
    }
    assert(milestones@.take(count as int) =~= milestones@);
    if total_amount == 0 {
        return Err(EscrowError::ZeroAmount);
    }
    let blank = Milestone::default();
    let mut slots: [Milestone; MAX_MILESTONES] = [blank; MAX_MILESTONES];
    let mut j: usize = 0;
    while j < count
        invariant
            j <= count,
            count == milestones.len(),
            count <= MAX_MILESTONES,
            forall|k: int| 0 <= k < j ==> #[trigger] slots[k] == pending(milestones@[k]),
            forall|k: int| j <= k < MAX_MILESTONES ==> (#[trigger] slots[k]).is_empty(),
        decreases count - j,
    {
        slots[j] = Milestone {
            amount: milestones[j].amount,
            status: MilestoneStatus::Pending,
            description_hash: milestones[j].description_hash,
        };
        j = j + 1;
    }
    let account = MilestoneEscrowAccount {
        creator: ctx.creator,
        recipient: ctx.recipient,
        total_amount,
        released_amount: 0,
        status: EscrowStatus::Created,
        deadline,
        terms_hash,
        arbiter: ctx.arbiter,
        fee_basis_points,
        fee_recipient: ctx.fee_recipient,
        created_at: now,
        escrow_id,
        bump,
        milestone_count: count as u8,
        milestones: slots,
    };
    proof {
        assert(account.live() =~= milestones@.map_values(|input: MilestoneInput| pending(input)));
        lemma_pending_sums(milestones@);
    }
    Ok(account)
}

} // verus!
