use escrow::errors::EscrowError;

#[test]
fn every_error_has_its_message() {
    let expected = [
        (EscrowError::InvalidStatus, "Escrow is not in the expected status for this operation"),
        (EscrowError::UnauthorizedCreator, "Only the creator can perform this action"),
        (EscrowError::UnauthorizedRecipient, "Only the recipient can perform this action"),
        (EscrowError::UnauthorizedArbiter, "Only the arbiter can resolve disputes"),
        (EscrowError::DeadlineNotReached, "Deadline has not passed yet"),
        (EscrowError::DeadlineExpired, "Deadline has already passed"),
        (EscrowError::FeeTooHigh, "Fee basis points exceeds maximum (1000 = 10%)"),
        (EscrowError::ZeroAmount, "Amount must be greater than zero"),
        (EscrowError::Overflow, "Arithmetic overflow"),
        (EscrowError::UnauthorizedDisputer, "Only creator or recipient can dispute"),
        (EscrowError::InvalidAutoRelease, "Auto-release timestamp must be after deadline"),
        (EscrowError::AutoReleaseNotEnabled, "Auto-release is not enabled for this escrow"),
        (EscrowError::AutoReleaseNotReady, "Auto-release timestamp has not been reached yet"),
        (EscrowError::TooManyMilestones, "Too many milestones (max 10)"),
        (EscrowError::MilestoneAmountMismatch, "Milestone amounts must sum to total amount"),
        (EscrowError::InvalidMilestoneIndex, "Invalid milestone index"),
        (EscrowError::MilestoneAlreadyReleased, "Milestone already released"),
        (EscrowError::MilestoneNotPending, "Milestone is not in pending status"),
    ];
    for (error, message) in expected {
        assert_eq!(error.message(), message);
    }
}

#[test]
fn errors_compare_by_variant() {
    assert_eq!(EscrowError::Overflow, EscrowError::Overflow);
    assert_ne!(EscrowError::Overflow, EscrowError::ZeroAmount);
}
