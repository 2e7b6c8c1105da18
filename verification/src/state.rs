//! The records that the escrow rules read and write.

use vstd::prelude::*;
use crate::fees::MAX_FEE_BASIS_POINTS;

verus! {

/// The number of milestone slots that a milestone escrow holds.
pub const MAX_MILESTONES: usize = 10;

/// A party to an escrow, known by the 32 bytes of its public key.
#[derive(Clone, Copy, Debug, Eq)]
pub struct Identity {
    pub bytes: [u8; 32],
}

impl PartialEq for Identity {
    fn eq(&self, other: &Self) -> (r: bool) {
        let mut i: usize = 0;
        while i < 32
            invariant
                i <= 32,
                forall|j: int| 0 <= j < i ==> self.bytes[j] == other.bytes[j],
            decreases 32 - i,
        {
            if self.bytes[i] != other.bytes[i] {
                return false;
            }
            i = i + 1;
        }
        assert(self.bytes =~= other.bytes);
        true
    }
}

impl vstd::std_specs::cmp::PartialEqSpecImpl for Identity {
    open spec fn obeys_eq_spec() -> bool {
        true
    }

    open spec fn eq_spec(&self, other: &Self) -> bool {
        *self == *other
    }
}

impl Identity {
    /// The identity with the given key bytes.
    pub fn new(bytes: [u8; 32]) -> (r: Self)
        ensures
            r.bytes == bytes,
    {
        Identity { bytes }
    }
}

/// Where a record stands in its life.
#[derive(Clone, Copy, Debug, PartialEq, Eq, Structural)]
pub enum EscrowStatus {
    /// Funded, not yet accepted by the recipient.
    Created,
    /// Accepted; the task is under way.
    Active,
    /// Paid out to the recipient.
    Completed,
    /// Contested; waiting for the arbiter.
    Disputed,
    /// Returned to the creator after the deadline.
    Refunded,
    /// Withdrawn by the creator before anyone accepted.
    Cancelled,
    /// Decided by the arbiter.
    Resolved,
}

impl EscrowStatus {
    /// A record in a terminal status is closed: no operation applies to it.
    pub open spec fn is_terminal(self) -> bool {
        self != EscrowStatus::Created && self != EscrowStatus::Active
            && self != EscrowStatus::Disputed
    }
}

/// Where one milestone stands.
#[derive(Clone, Copy, Debug, PartialEq, Eq, Structural)]
pub enum MilestoneStatus {
    /// Not yet paid and not contested.
    Pending,
    /// Paid out, to the recipient or back to the creator.
    Released,
    /// Contested; waiting for the arbiter.
    Disputed,
}

/// One independently releasable part of a milestone escrow.
#[derive(Clone, Copy, Debug, PartialEq, Eq)]
pub struct Milestone {
    pub amount: u64,
    pub status: MilestoneStatus,
    pub description_hash: [u8; 32],
}

impl Milestone {
    /// Bytes that one milestone takes in a stored record.
    pub const SPACE: usize = 8 + 1 + 32;

    /// Whether this is the content of an unused slot: no amount, pending, and
    /// a hash of zero bytes.
    pub open spec fn is_empty(self) -> bool {
        &&& self.amount == 0
        &&& self.status == MilestoneStatus::Pending
        &&& forall|i: int| 0 <= i < 32 ==> self.description_hash[i] == 0
    }
}

impl Default for Milestone {
    fn default() -> (r: Self)
        ensures
            r.is_empty(),
    {
        Milestone { amount: 0, status: MilestoneStatus::Pending, description_hash: [0u8; 32] }
    }
}

/// Whether all 64 bytes of a dispute reason are zero, as they are until a
/// dispute is raised.
pub open spec fn reason_is_blank(reason: [u8; 64]) -> bool {
    forall|i: int| 0 <= i < 64 ==> reason[i] == 0
}

/// A lump-sum escrow in the native asset. The record itself holds the value.
#[derive(Clone, Copy, Debug, PartialEq, Eq)]
pub struct EscrowAccount {
    /// Who funded the escrow.
    pub creator: Identity,
    /// Who performs the task and is paid for it.
    pub recipient: Identity,
    /// The value held, in the smallest native unit.
    pub amount: u64,
    pub status: EscrowStatus,
    /// Seconds since the epoch.
    pub deadline: i64,
    /// Digest of the terms agreed off the ledger.
    pub terms_hash: [u8; 32],
    /// Who decides a dispute.
    pub arbiter: Identity,
    /// The fee rate, in basis points.
    pub fee_basis_points: u16,
    /// Who receives the fee.
    pub fee_recipient: Identity,
    /// Seconds since the epoch.
    pub created_at: i64,
    /// Distinguishes the escrows of one creator.
    pub escrow_id: u64,
    /// The salt with which the record's address is derived again.
    pub bump: u8,
    /// Opaque; zero until a dispute is raised.
    pub dispute_reason: [u8; 64],
    /// Zero where auto-release is off, else the time from which anyone may
    /// release.
    pub auto_release_at: i64,
}

impl EscrowAccount {
    /// Bytes that a stored record takes, its 8-byte tag included.
    pub const SPACE: usize = 8 + 32 + 32 + 8 + 1 + 8 + 32 + 32 + 2 + 32 + 8 + 8 + 1 + 64 + 8;

    /// What holds of every record that the operations produce.
    pub open spec fn wf(self) -> bool {
        &&& self.amount > 0
        &&& self.fee_basis_points <= MAX_FEE_BASIS_POINTS
        &&& self.created_at < self.deadline
        &&& self.auto_release_at != 0 ==> self.auto_release_at > self.deadline
        &&& self.status != EscrowStatus::Disputed && self.status != EscrowStatus::Resolved
            ==> reason_is_blank(self.dispute_reason)
    }
}

/// A lump-sum escrow in a fungible token. The value sits in a holding account
/// that belongs to the record.
#[derive(Clone, Copy, Debug, PartialEq, Eq)]
pub struct TokenEscrowAccount {
    pub creator: Identity,
    pub recipient: Identity,
    /// Which token is held.
    pub mint: Identity,
    /// The value held, in the token's smallest unit.
    pub amount: u64,
    pub status: EscrowStatus,
    pub deadline: i64,
    pub terms_hash: [u8; 32],
    pub arbiter: Identity,
    pub fee_basis_points: u16,
    pub fee_recipient: Identity,
    pub created_at: i64,
    pub escrow_id: u64,
    pub bump: u8,
    pub dispute_reason: [u8; 64],
    pub auto_release_at: i64,
}

impl TokenEscrowAccount {
    /// Bytes that a stored record takes, its 8-byte tag included.
    pub const SPACE: usize = 8 + 32 + 32 + 32 + 8 + 1 + 8 + 32 + 32 + 2 + 32 + 8 + 8 + 1 + 64 + 8;

    /// The same terms as a native escrow, the token left aside.
    pub open spec fn as_escrow(self) -> EscrowAccount {
        EscrowAccount {
            creator: self.creator,
            recipient: self.recipient,
            amount: self.amount,
            status: self.status,
            deadline: self.deadline,
            terms_hash: self.terms_hash,
            arbiter: self.arbiter,
            fee_basis_points: self.fee_basis_points,
            fee_recipient: self.fee_recipient,
            created_at: self.created_at,
            escrow_id: self.escrow_id,
            bump: self.bump,
            dispute_reason: self.dispute_reason,
            auto_release_at: self.auto_release_at,
        }
    }

    /// What holds of every record that the operations produce.
    pub open spec fn wf(self) -> bool {
        self.as_escrow().wf()
    }
}

/// The sum of the amounts of the milestones in `s`.
pub open spec fn total_of(s: Seq<Milestone>) -> int
    decreases s.len(),
{
    if s.len() == 0 {
        0
    } else {
        total_of(s.drop_last()) + s.last().amount
    }
}

/// The sum of the amounts of those milestones in `s` that are released.
pub open spec fn released_of(s: Seq<Milestone>) -> int
    decreases s.len(),
{
    if s.len() == 0 {
        0
    } else {
        released_of(s.drop_last()) + if s.last().status == MilestoneStatus::Released {
            s.last().amount as int
        } else {
            0
        }
    }
}

/// Whether every milestone in `s` is released.
pub open spec fn all_released(s: Seq<Milestone>) -> bool {
    forall|i: int| 0 <= i < s.len() ==> (#[trigger] s[i]).status == MilestoneStatus::Released
}

/// Whether every milestone in `s` is pending.
pub open spec fn all_pending(s: Seq<Milestone>) -> bool {
    forall|i: int| 0 <= i < s.len() ==> (#[trigger] s[i]).status == MilestoneStatus::Pending
}

/// Whether no milestone in `s` is under dispute.
pub open spec fn none_disputed(s: Seq<Milestone>) -> bool {
    forall|i: int| 0 <= i < s.len() ==> (#[trigger] s[i]).status != MilestoneStatus::Disputed
}

/// Whether milestone `index` of `s` is under dispute and no other is.
pub open spec fn only_disputed(s: Seq<Milestone>, index: int) -> bool {
    &&& 0 <= index < s.len()
    &&& s[index].status == MilestoneStatus::Disputed
    &&& forall|i: int|
        0 <= i < s.len() && i != index ==> (#[trigger] s[i]).status != MilestoneStatus::Disputed
}

/// Whether the milestones in `s` are in a state that a record in `status` can
/// have: all pending until somebody accepts, exactly one under dispute while
/// the record is, none otherwise, and all released once it is completed and
/// only then.
pub open spec fn fits_status(s: Seq<Milestone>, status: EscrowStatus) -> bool {
    match status {
        EscrowStatus::Created => all_pending(s),
        EscrowStatus::Cancelled => all_pending(s),
        EscrowStatus::Active => none_disputed(s) && !all_released(s),
        EscrowStatus::Refunded => none_disputed(s) && !all_released(s),
        EscrowStatus::Completed => all_released(s),
        EscrowStatus::Disputed => exists|index: int| only_disputed(s, index),
        EscrowStatus::Resolved => false,
    }
}

/// An escrow in the native asset whose value is split into milestones.
#[derive(Clone, Copy, Debug, PartialEq, Eq)]
pub struct MilestoneEscrowAccount {
    pub creator: Identity,
    pub recipient: Identity,
    /// The sum of all milestone amounts.
    pub total_amount: u64,
    /// The sum of the amounts of the released milestones.
    pub released_amount: u64,
    pub status: EscrowStatus,
    pub deadline: i64,
    pub terms_hash: [u8; 32],
    pub arbiter: Identity,
    pub fee_basis_points: u16,
    pub fee_recipient: Identity,
    pub created_at: i64,
    pub escrow_id: u64,
    pub bump: u8,
    /// How many of the slots are in use.
    pub milestone_count: u8,
    /// The milestones in order; slots from `milestone_count` on are unused.
    pub milestones: [Milestone; MAX_MILESTONES],
}

impl MilestoneEscrowAccount {
    /// Bytes that a stored record takes, its 8-byte tag included.
    pub const SPACE: usize = 8 + 32 + 32 + 8 + 8 + 1 + 8 + 32 + 32 + 2 + 32 + 8 + 8 + 1 + 1
        + Milestone::SPACE * MAX_MILESTONES;

    /// The milestones in use, in order.
    pub open spec fn live(self) -> Seq<Milestone> {
        self.milestones@.take(self.milestone_count as int)
    }

    /// What holds of every record that the operations produce: between one
    /// and ten milestones, unused slots empty, the total and the released
    /// amount equal to the sums they stand for, and milestones in a state
    /// that fits the record's status.
    pub open spec fn wf(self) -> bool {
        &&& 1 <= self.milestone_count <= MAX_MILESTONES
        &&& forall|i: int|
            self.milestone_count <= i < MAX_MILESTONES ==> (#[trigger] self.milestones[i]).is_empty()
        &&& self.total_amount > 0
        &&& self.total_amount == total_of(self.live())
        &&& self.released_amount == released_of(self.live())
        &&& self.fee_basis_points <= MAX_FEE_BASIS_POINTS
        &&& self.created_at < self.deadline
        &&& fits_status(self.live(), self.status)
    }
}

/// The counters kept for one agent. They only ever grow.
#[derive(Clone, Copy, Debug, PartialEq, Eq)]
pub struct ReputationAccount {
    /// Whose counters these are.
    pub agent: Identity,
    /// Escrows funded.
    pub escrows_created: u32,
    /// Escrows paid out, as creator.
    pub escrows_completed: u32,
    /// Escrows named in, as recipient.
    pub escrows_received: u32,
    /// Tasks paid for, as recipient.
    pub tasks_completed: u32,
    pub disputes_initiated: u32,
    pub disputes_won: u32,
    pub disputes_lost: u32,
    /// Value of the completed escrows, in the smallest native unit.
    pub total_volume_lamports: u64,
    /// Seconds since the epoch.
    pub last_activity: i64,
    /// The salt with which the record's address is derived again.
    pub bump: u8,
}

impl ReputationAccount {
    /// Bytes that a stored record takes, its 8-byte tag included.
    pub const SPACE: usize = 8 + 32 + 4 + 4 + 4 + 4 + 4 + 4 + 4 + 8 + 8 + 1;
}

} // verus!
