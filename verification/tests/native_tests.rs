use escrow::errors::EscrowError;
use escrow::instructions::accept_task::{self, AcceptTask};
use escrow::instructions::auto_release::{self, AutoRelease};
use escrow::instructions::create_escrow::{self, CreateEscrow};
use escrow::instructions::dispute::{self, Dispute};
use escrow::instructions::release_payment::{self, ReleasePayment};
use escrow::instructions::request_refund::{self, RequestRefund};
use escrow::instructions::resolve_dispute::{self, DisputeWinner, ResolveDispute};
use escrow::rules::Payout;
use escrow::state::{EscrowAccount, EscrowStatus, Identity, ReputationAccount};

const NOW: i64 = 1_700_000_000;

fn id(n: u8) -> Identity {
    Identity::new([n; 32])
}

fn creator() -> Identity {
    id(1)
}

fn recipient() -> Identity {
    id(2)
}

fn arbiter() -> Identity {
    id(3)
}

fn treasury() -> Identity {
    id(4)
}

fn stranger() -> Identity {
    id(9)
}

fn parties() -> CreateEscrow {
    CreateEscrow {
        creator: creator(),
        recipient: recipient(),
        arbiter: arbiter(),
        fee_recipient: treasury(),
        creator_reputation: None,
        recipient_reputation: None,
    }
}

fn open(amount: u64, fee_bps: u16, deadline: i64, auto_release_at: i64) -> EscrowAccount {
    let mut ctx = parties();
    create_escrow::handler(&mut ctx, 42, amount, deadline, [5; 32], fee_bps, auto_release_at, 255, NOW)
        .unwrap()
}

fn accepted(amount: u64, fee_bps: u16, deadline: i64, auto_release_at: i64) -> EscrowAccount {
    let mut ctx = AcceptTask {
        escrow_account: open(amount, fee_bps, deadline, auto_release_at),
        recipient: recipient(),
    };
    accept_task::handler(&mut ctx, NOW + 1).unwrap();
    ctx.escrow_account
}

fn disputed(amount: u64, fee_bps: u16) -> EscrowAccount {
    let mut ctx = Dispute {
        escrow_account: accepted(amount, fee_bps, NOW + 3600, 0),
        disputer: recipient(),
        disputer_reputation: None,
    };
    dispute::handler(&mut ctx, [6; 64], NOW + 2).unwrap();
    ctx.escrow_account
}

fn reputation(agent: Identity) -> ReputationAccount {
    ReputationAccount::new(agent, 250, 0)
}

#[test]
fn create_fills_every_field() {
    let account = open(1_000_000, 250, NOW + 3600, NOW + 7200);
    assert_eq!(
        account,
        EscrowAccount {
            creator: creator(),
            recipient: recipient(),
            amount: 1_000_000,
            status: EscrowStatus::Created,
            deadline: NOW + 3600,
            terms_hash: [5; 32],
            arbiter: arbiter(),
            fee_basis_points: 250,
            fee_recipient: treasury(),
            created_at: NOW,
            escrow_id: 42,
            bump: 255,
            dispute_reason: [0; 64],
            auto_release_at: NOW + 7200,
        }
    );
}

#[test]
fn create_refuses_bad_terms() {
    let mut ctx = parties();
    let before = ctx;
    assert_eq!(
        create_escrow::handler(&mut ctx, 1, 0, NOW + 10, [0; 32], 0, 0, 1, NOW),
        Err(EscrowError::ZeroAmount)
    );
    assert_eq!(
        create_escrow::handler(&mut ctx, 1, 5, NOW + 10, [0; 32], 1001, 0, 1, NOW),
        Err(EscrowError::FeeTooHigh)
    );
    assert_eq!(
        create_escrow::handler(&mut ctx, 1, 5, NOW, [0; 32], 1000, 0, 1, NOW),
        Err(EscrowError::DeadlineExpired)
    );
    assert_eq!(
        create_escrow::handler(&mut ctx, 1, 5, NOW + 10, [0; 32], 1000, NOW + 10, 1, NOW),
        Err(EscrowError::InvalidAutoRelease)
    );
    assert_eq!(ctx, before);
}

#[test]
fn create_counts_for_both_parties_from_the_floor_on() {
    let mut ctx = CreateEscrow {
        creator_reputation: Some(reputation(creator())),
        recipient_reputation: Some(reputation(recipient())),
        ..parties()
    };
    create_escrow::handler(&mut ctx, 1, 10_000_000, NOW + 10, [0; 32], 0, 0, 1, NOW).unwrap();
    assert_eq!(
        ctx.creator_reputation,
        Some(ReputationAccount { escrows_created: 1, last_activity: NOW, ..reputation(creator()) })
    );
    assert_eq!(
        ctx.recipient_reputation,
        Some(ReputationAccount {
            escrows_received: 1,
            last_activity: NOW,
            ..reputation(recipient())
        })
    );
}

#[test]
fn create_below_the_floor_counts_for_nobody() {
    let mut ctx = CreateEscrow {
        creator_reputation: Some(reputation(creator())),
        recipient_reputation: Some(reputation(recipient())),
        ..parties()
    };
    create_escrow::handler(&mut ctx, 1, 9_999_999, NOW + 10, [0; 32], 0, 0, 1, NOW).unwrap();
    assert_eq!(ctx.creator_reputation, Some(reputation(creator())));
    assert_eq!(ctx.recipient_reputation, Some(reputation(recipient())));
}

#[test]
fn refused_create_leaves_reputation_alone() {
    let mut ctx = CreateEscrow { creator_reputation: Some(reputation(creator())), ..parties() };
    assert!(create_escrow::handler(&mut ctx, 1, 10_000_000, NOW, [0; 32], 0, 0, 1, NOW).is_err());
    assert_eq!(ctx.creator_reputation, Some(reputation(creator())));
}

#[test]
fn scenario_create_accept_release() {
    let account = open(1_000_000, 250, NOW + 3600, 0);
    assert_eq!(account.status, EscrowStatus::Created);

    let mut ctx = AcceptTask { escrow_account: account, recipient: recipient() };
    assert_eq!(accept_task::handler(&mut ctx, NOW + 100), Ok(()));
    assert_eq!(ctx.escrow_account.status, EscrowStatus::Active);

    let mut ctx = ReleasePayment {
        escrow_account: ctx.escrow_account,
        creator: creator(),
        creator_reputation: None,
        recipient_reputation: None,
    };
    let payout = release_payment::handler(&mut ctx, NOW + 200).unwrap();
    assert_eq!(payout, Payout { fee: 25_000, to_recipient: 975_000, to_creator: 0 });
    assert_eq!(ctx.escrow_account.status, EscrowStatus::Completed);
    assert_eq!(
        ctx.escrow_account,
        EscrowAccount { status: EscrowStatus::Completed, ..open(1_000_000, 250, NOW + 3600, 0) }
    );
}

#[test]
fn accept_is_for_the_recipient_only() {
    let mut ctx = AcceptTask { escrow_account: open(5, 0, NOW + 10, 0), recipient: creator() };
    let before = ctx;
    assert_eq!(accept_task::handler(&mut ctx, NOW + 1), Err(EscrowError::UnauthorizedRecipient));
    assert_eq!(ctx, before);
}

#[test]
fn accept_needs_a_created_record() {
    let mut ctx = AcceptTask { escrow_account: accepted(5, 0, NOW + 10, 0), recipient: recipient() };
    let before = ctx;
    assert_eq!(accept_task::handler(&mut ctx, NOW + 1), Err(EscrowError::InvalidStatus));
    assert_eq!(ctx, before);
}

#[test]
fn accept_at_the_deadline_is_too_late() {
    let mut ctx = AcceptTask { escrow_account: open(5, 0, NOW + 10, 0), recipient: recipient() };
    let before = ctx;
    assert_eq!(accept_task::handler(&mut ctx, NOW + 10), Err(EscrowError::DeadlineExpired));
    assert_eq!(ctx, before);
    assert_eq!(accept_task::handler(&mut ctx, NOW + 9), Ok(()));
}

#[test]
fn release_is_for_the_creator_only() {
    let mut ctx = ReleasePayment {
        escrow_account: accepted(5, 0, NOW + 10, 0),
        creator: recipient(),
        creator_reputation: Some(reputation(creator())),
        recipient_reputation: None,
    };
    let before = ctx;
    assert_eq!(release_payment::handler(&mut ctx, NOW + 2), Err(EscrowError::UnauthorizedCreator));
    assert_eq!(ctx, before);
}

#[test]
fn release_needs_an_active_record() {
    let mut ctx = ReleasePayment {
        escrow_account: open(5, 0, NOW + 10, 0),
        creator: creator(),
        creator_reputation: None,
        recipient_reputation: None,
    };
    let before = ctx;
    assert_eq!(release_payment::handler(&mut ctx, NOW + 2), Err(EscrowError::InvalidStatus));
    assert_eq!(ctx, before);
}

#[test]
fn release_twice_is_refused() {
    let mut ctx = ReleasePayment {
        escrow_account: accepted(1_000, 100, NOW + 10, 0),
        creator: creator(),
        creator_reputation: None,
        recipient_reputation: None,
    };
    assert_eq!(
        release_payment::handler(&mut ctx, NOW + 2),
        Ok(Payout { fee: 10, to_recipient: 990, to_creator: 0 })
    );
    assert_eq!(release_payment::handler(&mut ctx, NOW + 3), Err(EscrowError::InvalidStatus));
}

#[test]
fn release_of_a_malformed_rate_is_an_overflow() {
    let account = EscrowAccount { fee_basis_points: 20_000, ..accepted(10_000, 0, NOW + 10, 0) };
    let mut ctx = ReleasePayment {
        escrow_account: account,
        creator: creator(),
        creator_reputation: Some(reputation(creator())),
        recipient_reputation: None,
    };
    let before = ctx;
    assert_eq!(release_payment::handler(&mut ctx, NOW + 2), Err(EscrowError::Overflow));
    assert_eq!(ctx, before);
}

#[test]
fn release_counts_volume_for_both_parties() {
    let mut ctx = ReleasePayment {
        escrow_account: accepted(20_000_000, 250, NOW + 10, 0),
        creator: creator(),
        creator_reputation: Some(reputation(creator())),
        recipient_reputation: Some(reputation(recipient())),
    };
    release_payment::handler(&mut ctx, NOW + 5).unwrap();
    assert_eq!(
        ctx.creator_reputation,
        Some(ReputationAccount {
            escrows_completed: 1,
            total_volume_lamports: 20_000_000,
            last_activity: NOW + 5,
            ..reputation(creator())
        })
    );
    assert_eq!(
        ctx.recipient_reputation,
        Some(ReputationAccount {
            tasks_completed: 1,
            total_volume_lamports: 20_000_000,
            last_activity: NOW + 5,
            ..reputation(recipient())
        })
    );
}

#[test]
fn scenario_refund_before_accept_needs_no_waiting() {
    let account = open(1_000_000, 250, NOW + 10, 0);
    for now in [NOW, NOW + 5, NOW + 10, NOW + 20, NOW + 1_000_000] {
        let mut ctx = RequestRefund { escrow_account: account, creator: creator() };
        assert_eq!(
            request_refund::handler(&mut ctx, now),
            Ok(Payout { fee: 0, to_recipient: 0, to_creator: 1_000_000 })
        );
        assert_eq!(ctx.escrow_account.status, EscrowStatus::Cancelled);
    }
}

#[test]
fn scenario_refund_after_accept_waits_for_the_deadline() {
    let account = accepted(1_000_000, 250, NOW + 10, 0);
    let mut ctx = RequestRefund { escrow_account: account, creator: creator() };
    let before = ctx;
    assert_eq!(request_refund::handler(&mut ctx, NOW + 9), Err(EscrowError::DeadlineNotReached));
    assert_eq!(ctx, before);
    assert_eq!(
        request_refund::handler(&mut ctx, NOW + 10),
        Ok(Payout { fee: 0, to_recipient: 0, to_creator: 1_000_000 })
    );
    assert_eq!(ctx.escrow_account.status, EscrowStatus::Refunded);
    assert_eq!(request_refund::handler(&mut ctx, NOW + 20), Err(EscrowError::InvalidStatus));
}

#[test]
fn refund_is_for_the_creator_only() {
    let mut ctx = RequestRefund { escrow_account: open(5, 0, NOW + 10, 0), creator: stranger() };
    let before = ctx;
    assert_eq!(request_refund::handler(&mut ctx, NOW + 20), Err(EscrowError::UnauthorizedCreator));
    assert_eq!(ctx, before);
}

#[test]
fn refund_of_a_disputed_record_is_refused() {
    let mut ctx = RequestRefund { escrow_account: disputed(5, 0), creator: creator() };
    let before = ctx;
    assert_eq!(request_refund::handler(&mut ctx, NOW + 99_999), Err(EscrowError::InvalidStatus));
    assert_eq!(ctx, before);
}

#[test]
fn dispute_stores_the_reason() {
    let mut reason = [0u8; 64];
    reason[0] = 1;
    reason[63] = 2;
    for disputer in [creator(), recipient()] {
        let mut ctx = Dispute {
            escrow_account: accepted(5, 0, NOW + 10, 0),
            disputer,
            disputer_reputation: Some(reputation(disputer)),
        };
        assert_eq!(dispute::handler(&mut ctx, reason, NOW + 3), Ok(()));
        assert_eq!(
            ctx.escrow_account,
            EscrowAccount {
                status: EscrowStatus::Disputed,
                dispute_reason: reason,
                ..accepted(5, 0, NOW + 10, 0)
            }
        );
        assert_eq!(
            ctx.disputer_reputation,
            Some(ReputationAccount {
                disputes_initiated: 1,
                last_activity: NOW + 3,
                ..reputation(disputer)
            })
        );
    }
}

#[test]
fn dispute_is_for_the_parties_only() {
    for outsider in [arbiter(), treasury(), stranger()] {
        let mut ctx = Dispute {
            escrow_account: accepted(5, 0, NOW + 10, 0),
            disputer: outsider,
            disputer_reputation: Some(reputation(outsider)),
        };
        let before = ctx;
        assert_eq!(
            dispute::handler(&mut ctx, [1; 64], NOW + 3),
            Err(EscrowError::UnauthorizedDisputer)
        );
        assert_eq!(ctx, before);
    }
}

#[test]
fn dispute_needs_an_active_record() {
    let mut ctx = Dispute {
        escrow_account: open(5, 0, NOW + 10, 0),
        disputer: stranger(),
        disputer_reputation: None,
    };
    let before = ctx;
    assert_eq!(dispute::handler(&mut ctx, [1; 64], NOW + 3), Err(EscrowError::InvalidStatus));
    assert_eq!(ctx, before);
}

#[test]
fn scenario_arbiter_decides_for_the_creator() {
    let mut ctx = ResolveDispute {
        escrow_account: disputed(1_000_000, 250),
        arbiter: arbiter(),
        creator_reputation: Some(reputation(creator())),
        recipient_reputation: Some(reputation(recipient())),
    };
    let payout = resolve_dispute::handler(&mut ctx, DisputeWinner::Creator, NOW + 50).unwrap();
    assert_eq!(payout, Payout { fee: 0, to_recipient: 0, to_creator: 1_000_000 });
    assert_eq!(ctx.escrow_account.status, EscrowStatus::Resolved);
    assert_eq!(
        ctx.creator_reputation,
        Some(ReputationAccount { disputes_won: 1, last_activity: NOW + 50, ..reputation(creator()) })
    );
    assert_eq!(
        ctx.recipient_reputation,
        Some(ReputationAccount {
            disputes_lost: 1,
            last_activity: NOW + 50,
            ..reputation(recipient())
        })
    );
}

#[test]
fn scenario_arbiter_decides_for_the_recipient() {
    let mut ctx = ResolveDispute {
        escrow_account: disputed(1_000_000, 250),
        arbiter: arbiter(),
        creator_reputation: Some(reputation(creator())),
        recipient_reputation: Some(reputation(recipient())),
    };
    let payout = resolve_dispute::handler(&mut ctx, DisputeWinner::Recipient, NOW + 50).unwrap();
    assert_eq!(payout, Payout { fee: 25_000, to_recipient: 975_000, to_creator: 0 });
    assert_eq!(ctx.escrow_account.status, EscrowStatus::Resolved);
    assert_eq!(
        ctx.escrow_account,
        EscrowAccount { status: EscrowStatus::Resolved, ..disputed(1_000_000, 250) }
    );
    assert_eq!(
        ctx.creator_reputation,
        Some(ReputationAccount { disputes_lost: 1, last_activity: NOW + 50, ..reputation(creator()) })
    );
    assert_eq!(
        ctx.recipient_reputation,
        Some(ReputationAccount {
            disputes_won: 1,
            last_activity: NOW + 50,
            ..reputation(recipient())
        })
    );
}

#[test]
fn resolve_is_for_the_arbiter_only() {
    for caller in [creator(), recipient(), stranger()] {
        let mut ctx = ResolveDispute {
            escrow_account: disputed(5, 0),
            arbiter: caller,
            creator_reputation: Some(reputation(creator())),
            recipient_reputation: None,
        };
        let before = ctx;
        assert_eq!(
            resolve_dispute::handler(&mut ctx, DisputeWinner::Creator, NOW + 50),
            Err(EscrowError::UnauthorizedArbiter)
        );
        assert_eq!(ctx, before);
    }
}

#[test]
fn resolve_needs_a_disputed_record() {
    let mut ctx = ResolveDispute {
        escrow_account: accepted(5, 0, NOW + 10, 0),
        arbiter: arbiter(),
        creator_reputation: None,
        recipient_reputation: None,
    };
    let before = ctx;
    assert_eq!(
        resolve_dispute::handler(&mut ctx, DisputeWinner::Recipient, NOW + 50),
        Err(EscrowError::InvalidStatus)
    );
    assert_eq!(ctx, before);
}

#[test]
fn resolve_twice_is_refused() {
    let mut ctx = ResolveDispute {
        escrow_account: disputed(5, 0),
        arbiter: arbiter(),
        creator_reputation: None,
        recipient_reputation: None,
    };
    assert!(resolve_dispute::handler(&mut ctx, DisputeWinner::Creator, NOW + 50).is_ok());
    assert_eq!(
        resolve_dispute::handler(&mut ctx, DisputeWinner::Creator, NOW + 51),
        Err(EscrowError::InvalidStatus)
    );
}

#[test]
fn auto_release_before_its_time_is_not_ready() {
    let mut ctx = AutoRelease {
        escrow_account: accepted(1_000_000, 250, NOW + 10, NOW + 20),
        caller: stranger(),
        creator_reputation: None,
        recipient_reputation: None,
    };
    let before = ctx;
    assert_eq!(auto_release::handler(&mut ctx, NOW + 19), Err(EscrowError::AutoReleaseNotReady));
    assert_eq!(ctx, before);
}

#[test]
fn auto_release_pays_once() {
    let mut ctx = AutoRelease {
        escrow_account: accepted(1_000_000, 250, NOW + 10, NOW + 20),
        caller: stranger(),
        creator_reputation: None,
        recipient_reputation: None,
    };
    assert_eq!(
        auto_release::handler(&mut ctx, NOW + 20),
        Ok(Payout { fee: 25_000, to_recipient: 975_000, to_creator: 0 })
    );
    assert_eq!(ctx.escrow_account.status, EscrowStatus::Completed);
    let after = ctx;
    assert_eq!(auto_release::handler(&mut ctx, NOW + 21), Err(EscrowError::InvalidStatus));
    assert_eq!(ctx, after);
    ctx.caller = creator();
    assert_eq!(auto_release::handler(&mut ctx, NOW + 1_000), Err(EscrowError::InvalidStatus));
}

#[test]
fn auto_release_asks_nothing_of_the_caller() {
    for caller in [creator(), recipient(), arbiter(), treasury(), stranger()] {
        let mut ctx = AutoRelease {
            escrow_account: accepted(1_000, 100, NOW + 10, NOW + 20),
            caller,
            creator_reputation: None,
            recipient_reputation: None,
        };
        assert_eq!(
            auto_release::handler(&mut ctx, NOW + 30),
            Ok(Payout { fee: 10, to_recipient: 990, to_creator: 0 })
        );
    }
}

#[test]
fn auto_release_must_be_enabled() {
    let mut ctx = AutoRelease {
        escrow_account: accepted(1_000, 100, NOW + 10, 0),
        caller: stranger(),
        creator_reputation: None,
        recipient_reputation: None,
    };
    let before = ctx;
    assert_eq!(auto_release::handler(&mut ctx, NOW + 30), Err(EscrowError::AutoReleaseNotEnabled));
    assert_eq!(ctx, before);
}

#[test]
fn auto_release_needs_an_active_record() {
    let mut ctx = AutoRelease {
        escrow_account: open(1_000, 100, NOW + 10, NOW + 20),
        caller: stranger(),
        creator_reputation: None,
        recipient_reputation: None,
    };
    let before = ctx;
    assert_eq!(auto_release::handler(&mut ctx, NOW + 30), Err(EscrowError::InvalidStatus));
    assert_eq!(ctx, before);
}

#[test]
fn auto_release_counts_volume_for_both_parties() {
    let mut ctx = AutoRelease {
        escrow_account: accepted(10_000_000, 0, NOW + 10, NOW + 20),
        caller: stranger(),
        creator_reputation: Some(reputation(creator())),
        recipient_reputation: Some(reputation(recipient())),
    };
    assert_eq!(
        auto_release::handler(&mut ctx, NOW + 30),
        Ok(Payout { fee: 0, to_recipient: 10_000_000, to_creator: 0 })
    );
    assert_eq!(
        ctx.creator_reputation,
        Some(ReputationAccount {
            escrows_completed: 1,
            total_volume_lamports: 10_000_000,
            last_activity: NOW + 30,
            ..reputation(creator())
        })
    );
    assert_eq!(
        ctx.recipient_reputation,
        Some(ReputationAccount {
            tasks_completed: 1,
            total_volume_lamports: 10_000_000,
            last_activity: NOW + 30,
            ..reputation(recipient())
        })
    );
}
