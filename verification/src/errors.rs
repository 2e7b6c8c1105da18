//! The closed set of reasons for which an escrow operation is refused.

use vstd::prelude::*;

verus! {

/// Why an operation was refused. Each variant names one violated precondition.
#[derive(Clone, Copy, Debug, PartialEq, Eq, Structural)]
pub enum EscrowError {
    /// The record is not in the status that the operation needs.
    InvalidStatus,
    /// The caller is not the record's creator.
    UnauthorizedCreator,
    /// The caller is not the record's recipient.
    UnauthorizedRecipient,
    /// The caller is not the record's arbiter.
    UnauthorizedArbiter,
    /// The deadline has not passed yet.
    DeadlineNotReached,
    /// The deadline has already passed.
    DeadlineExpired,
    /// The fee rate is above the cap.
    FeeTooHigh,
    /// The amount is zero.
    ZeroAmount,
    /// An amount left the range of a 64-bit unsigned integer.
    Overflow,
    /// The caller is neither creator nor recipient.
    UnauthorizedDisputer,
    /// The auto-release time is set but not after the deadline.
    InvalidAutoRelease,
    /// The record has no auto-release time.
    AutoReleaseNotEnabled,
    /// The auto-release time has not come yet.
    AutoReleaseNotReady,
    /// The number of milestones is zero or above the capacity.
    TooManyMilestones,
    /// The milestone amounts do not add up to the total.
    MilestoneAmountMismatch,
    /// The index names no milestone of the record.
    InvalidMilestoneIndex,
    /// The milestone is no longer pending.
    MilestoneAlreadyReleased,
    /// The milestone is not in the status that the operation needs.
    MilestoneNotPending,
}

impl EscrowError {
    /// The sentence that tells a user what went wrong.
    pub open spec fn text(self) -> Seq<char> {
        match self {
            EscrowError::InvalidStatus => "Escrow is not in the expected status for this operation"@,
            EscrowError::UnauthorizedCreator => "Only the creator can perform this action"@,
            EscrowError::UnauthorizedRecipient => "Only the recipient can perform this action"@,
            EscrowError::UnauthorizedArbiter => "Only the arbiter can resolve disputes"@,
            EscrowError::DeadlineNotReached => "Deadline has not passed yet"@,
            EscrowError::DeadlineExpired => "Deadline has already passed"@,
            EscrowError::FeeTooHigh => "Fee basis points exceeds maximum (1000 = 10%)"@,
            EscrowError::ZeroAmount => "Amount must be greater than zero"@,
            EscrowError::Overflow => "Arithmetic overflow"@,
            EscrowError::UnauthorizedDisputer => "Only creator or recipient can dispute"@,
            EscrowError::InvalidAutoRelease => "Auto-release timestamp must be after deadline"@,
            EscrowError::AutoReleaseNotEnabled => "Auto-release is not enabled for this escrow"@,
            EscrowError::AutoReleaseNotReady => "Auto-release timestamp has not been reached yet"@,
            EscrowError::TooManyMilestones => "Too many milestones (max 10)"@,
            EscrowError::MilestoneAmountMismatch => "Milestone amounts must sum to total amount"@,
            EscrowError::InvalidMilestoneIndex => "Invalid milestone index"@,
            EscrowError::MilestoneAlreadyReleased => "Milestone already released"@,
            EscrowError::MilestoneNotPending => "Milestone is not in pending status"@,
        }
    }

    /// The sentence that tells a user what went wrong.
    pub fn message(&self) -> (r: &'static str)
        ensures
            r@ == self.text(),
    {
        match self {
            EscrowError::InvalidStatus => "Escrow is not in the expected status for this operation",
            EscrowError::UnauthorizedCreator => "Only the creator can perform this action",
            EscrowError::UnauthorizedRecipient => "Only the recipient can perform this action",
            EscrowError::UnauthorizedArbiter => "Only the arbiter can resolve disputes",
            EscrowError::DeadlineNotReached => "Deadline has not passed yet",
            EscrowError::DeadlineExpired => "Deadline has already passed",
            EscrowError::FeeTooHigh => "Fee basis points exceeds maximum (1000 = 10%)",
            EscrowError::ZeroAmount => "Amount must be greater than zero",
            EscrowError::Overflow => "Arithmetic overflow",
            EscrowError::UnauthorizedDisputer => "Only creator or recipient can dispute",
            EscrowError::InvalidAutoRelease => "Auto-release timestamp must be after deadline",
            EscrowError::AutoReleaseNotEnabled => "Auto-release is not enabled for this escrow",
            EscrowError::AutoReleaseNotReady => "Auto-release timestamp has not been reached yet",
            EscrowError::TooManyMilestones => "Too many milestones (max 10)",
            EscrowError::MilestoneAmountMismatch => "Milestone amounts must sum to total amount",
            EscrowError::InvalidMilestoneIndex => "Invalid milestone index",
            EscrowError::MilestoneAlreadyReleased => "Milestone already released",
            EscrowError::MilestoneNotPending => "Milestone is not in pending status",
        }
    }
}


} // verus!
