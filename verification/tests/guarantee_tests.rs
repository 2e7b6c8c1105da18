use escrow::errors::EscrowError;
use escrow::instructions::accept_task::{self, AcceptTask};
use escrow::instructions::accept_token_task::{self, AcceptTokenTask};
use escrow::instructions::auto_release::{self, AutoRelease};
use escrow::instructions::auto_release_token::{self, AutoReleaseToken};
use escrow::instructions::create_milestone_escrow::{self, CreateMilestoneEscrow, MilestoneInput};
use escrow::instructions::accept_milestone_task::{self, AcceptMilestoneTask};
use escrow::instructions::dispute::{self, Dispute};
use escrow::instructions::dispute_milestone::{self, DisputeMilestone};
use escrow::instructions::dispute_token::{self, DisputeToken};
use escrow::instructions::refund_milestone_escrow::{self, RefundMilestoneEscrow};
use escrow::instructions::refund_token_escrow::{self, RefundTokenEscrow};
use escrow::instructions::release_milestone::{self, ReleaseMilestone};
use escrow::instructions::release_payment::{self, ReleasePayment};
use escrow::instructions::release_token_payment::{self, ReleaseTokenPayment};
use escrow::instructions::request_refund::{self, RequestRefund};
use escrow::instructions::resolve_dispute::{self, ResolveDispute};
use escrow::instructions::resolve_milestone_dispute::{self, ResolveMilestoneDispute};
use escrow::instructions::resolve_token_dispute::{self, ResolveTokenDispute};
use escrow::rules::{DisputeWinner, Payout};
use escrow::state::{
    EscrowAccount, EscrowStatus, Identity, MilestoneEscrowAccount, MilestoneStatus,
    TokenEscrowAccount,
};

const NOW: i64 = 1_000;
const DEADLINE: i64 = 2_000;
const AUTO: i64 = 3_000;

const ALL: [EscrowStatus; 7] = [
    EscrowStatus::Created,
    EscrowStatus::Active,
    EscrowStatus::Completed,
    EscrowStatus::Disputed,
    EscrowStatus::Refunded,
    EscrowStatus::Cancelled,
    EscrowStatus::Resolved,
];

fn id(n: u8) -> Identity {
    Identity::new([n; 32])
}

fn token(status: EscrowStatus) -> TokenEscrowAccount {
    TokenEscrowAccount {
        creator: id(1),
        recipient: id(2),
        mint: id(5),
        amount: 1_000_000,
        status,
        deadline: DEADLINE,
        terms_hash: [7; 32],
        arbiter: id(3),
        fee_basis_points: 250,
        fee_recipient: id(4),
        created_at: NOW,
        escrow_id: 1,
        bump: 255,
        dispute_reason: [0; 64],
        auto_release_at: AUTO,
    }
}

fn native(status: EscrowStatus) -> EscrowAccount {
    let t = token(status);
    EscrowAccount {
        creator: t.creator,
        recipient: t.recipient,
        amount: t.amount,
        status: t.status,
        deadline: t.deadline,
        terms_hash: t.terms_hash,
        arbiter: t.arbiter,
        fee_basis_points: t.fee_basis_points,
        fee_recipient: t.fee_recipient,
        created_at: t.created_at,
        escrow_id: t.escrow_id,
        bump: t.bump,
        dispute_reason: t.dispute_reason,
        auto_release_at: t.auto_release_at,
    }
}

fn without_mint(t: &TokenEscrowAccount) -> EscrowAccount {
    EscrowAccount {
        creator: t.creator,
        recipient: t.recipient,
        amount: t.amount,
        status: t.status,
        deadline: t.deadline,
        terms_hash: t.terms_hash,
        arbiter: t.arbiter,
        fee_basis_points: t.fee_basis_points,
        fee_recipient: t.fee_recipient,
        created_at: t.created_at,
        escrow_id: t.escrow_id,
        bump: t.bump,
        dispute_reason: t.dispute_reason,
        auto_release_at: t.auto_release_at,
    }
}

#[test]
fn token_escrows_are_ruled_as_native_ones() {
    let callers = [id(1), id(2), id(3), id(4), id(9)];
    let times = [NOW, DEADLINE - 1, DEADLINE, AUTO - 1, AUTO, AUTO + 1];
    for status in ALL {
        for caller in callers {
            for now in times {
                let mut t = AcceptTokenTask { escrow_account: token(status), recipient: caller };
                let mut n = AcceptTask { escrow_account: native(status), recipient: caller };
                assert_eq!(
                    accept_token_task::handler(&mut t, now),
                    accept_task::handler(&mut n, now)
                );
                assert_eq!(without_mint(&t.escrow_account), n.escrow_account);
                assert_eq!(t.escrow_account.mint, id(5));

                let mut t = ReleaseTokenPayment { escrow_account: token(status), creator: caller };
                let mut n = ReleasePayment {
                    escrow_account: native(status),
                    creator: caller,
                    creator_reputation: None,
                    recipient_reputation: None,
                };
                assert_eq!(
                    release_token_payment::handler(&mut t),
                    release_payment::handler(&mut n, now)
                );
                assert_eq!(without_mint(&t.escrow_account), n.escrow_account);

                let mut t = RefundTokenEscrow { escrow_account: token(status), creator: caller };
                let mut n = RequestRefund { escrow_account: native(status), creator: caller };
                assert_eq!(
                    refund_token_escrow::handler(&mut t, now),
                    request_refund::handler(&mut n, now)
                );
                assert_eq!(without_mint(&t.escrow_account), n.escrow_account);

                let mut t = DisputeToken { escrow_account: token(status), disputer: caller };
                let mut n = Dispute {
                    escrow_account: native(status),
                    disputer: caller,
                    disputer_reputation: None,
                };
                assert_eq!(
                    dispute_token::handler(&mut t, [4; 64]),
                    dispute::handler(&mut n, [4; 64], now)
                );
                assert_eq!(without_mint(&t.escrow_account), n.escrow_account);

                for winner in [DisputeWinner::Creator, DisputeWinner::Recipient] {
                    let mut t =
                        ResolveTokenDispute { escrow_account: token(status), arbiter: caller };
                    let mut n = ResolveDispute {
                        escrow_account: native(status),
                        arbiter: caller,
                        creator_reputation: None,
                        recipient_reputation: None,
                    };
                    assert_eq!(
                        resolve_token_dispute::handler(&mut t, winner),
                        resolve_dispute::handler(&mut n, winner, now)
                    );
                    assert_eq!(without_mint(&t.escrow_account), n.escrow_account);
                }

                let mut t = AutoReleaseToken { escrow_account: token(status), caller };
                let mut n = AutoRelease {
                    escrow_account: native(status),
                    caller,
                    creator_reputation: None,
                    recipient_reputation: None,
                };
                assert_eq!(
                    auto_release_token::handler(&mut t, now),
                    auto_release::handler(&mut n, now)
                );
                assert_eq!(without_mint(&t.escrow_account), n.escrow_account);
            }
        }
    }
}

#[test]
fn closed_records_pay_nothing() {
    let closed = [
        EscrowStatus::Completed,
        EscrowStatus::Refunded,
        EscrowStatus::Cancelled,
        EscrowStatus::Resolved,
    ];
    for status in closed {
        for caller in [id(1), id(2), id(3), id(9)] {
            let account = native(status);
            let mut accept = AcceptTask { escrow_account: account, recipient: caller };
            assert!(accept_task::handler(&mut accept, NOW).is_err());
            let mut release = ReleasePayment {
                escrow_account: account,
                creator: caller,
                creator_reputation: None,
                recipient_reputation: None,
            };
            assert!(release_payment::handler(&mut release, NOW).is_err());
            let mut refund = RequestRefund { escrow_account: account, creator: caller };
            assert!(request_refund::handler(&mut refund, AUTO + 1).is_err());
            let mut contest =
                Dispute { escrow_account: account, disputer: caller, disputer_reputation: None };
            assert!(dispute::handler(&mut contest, [1; 64], NOW).is_err());
            let mut resolve = ResolveDispute {
                escrow_account: account,
                arbiter: caller,
                creator_reputation: None,
                recipient_reputation: None,
            };
            assert!(resolve_dispute::handler(&mut resolve, DisputeWinner::Creator, NOW).is_err());
            let mut auto = AutoRelease {
                escrow_account: account,
                caller,
                creator_reputation: None,
                recipient_reputation: None,
            };
            assert_eq!(auto_release::handler(&mut auto, AUTO + 1), Err(EscrowError::InvalidStatus));
            assert_eq!(auto.escrow_account, account);
        }
    }
}

#[test]
fn value_can_always_leave_an_open_record() {
    let mut refund = RequestRefund { escrow_account: native(EscrowStatus::Created), creator: id(1) };
    assert_eq!(
        request_refund::handler(&mut refund, i64::MIN),
        Ok(Payout { fee: 0, to_recipient: 0, to_creator: 1_000_000 })
    );
    let mut refund = RequestRefund { escrow_account: native(EscrowStatus::Active), creator: id(1) };
    assert_eq!(
        request_refund::handler(&mut refund, DEADLINE),
        Ok(Payout { fee: 0, to_recipient: 0, to_creator: 1_000_000 })
    );
    for winner in [DisputeWinner::Creator, DisputeWinner::Recipient] {
        let mut resolve = ResolveDispute {
            escrow_account: native(EscrowStatus::Disputed),
            arbiter: id(3),
            creator_reputation: None,
            recipient_reputation: None,
        };
        let payout = resolve_dispute::handler(&mut resolve, winner, NOW).unwrap();
        assert_eq!(payout.fee + payout.to_recipient + payout.to_creator, 1_000_000);
    }
}

fn milestones(amounts: &[u64]) -> MilestoneEscrowAccount {
    let parties =
        CreateMilestoneEscrow { creator: id(1), recipient: id(2), arbiter: id(3), fee_recipient: id(4) };
    let mut asked = Vec::new();
    for amount in amounts {
        asked.push(MilestoneInput { amount: *amount, description_hash: [0; 32] });
    }
    let account =
        create_milestone_escrow::handler(&parties, 1, DEADLINE, [0; 32], 100, asked, 255, NOW)
            .unwrap();
    let mut accept = AcceptMilestoneTask { escrow_account: account, recipient: id(2) };
    accept_milestone_task::handler(&mut accept, NOW + 1).unwrap();
    accept.escrow_account
}

fn disputed_count(account: &MilestoneEscrowAccount) -> usize {
    account.milestones[..account.milestone_count as usize]
        .iter()
        .filter(|m| m.status == MilestoneStatus::Disputed)
        .count()
}

#[test]
fn a_milestone_is_paid_once() {
    let mut release =
        ReleaseMilestone { escrow_account: milestones(&[100, 200, 300]), creator: id(1) };
    release_milestone::handler(&mut release, 1).unwrap();
    let after = release.escrow_account;

    assert_eq!(
        release_milestone::handler(&mut release, 1),
        Err(EscrowError::MilestoneAlreadyReleased)
    );
    let mut contest = DisputeMilestone { escrow_account: after, disputer: id(2) };
    assert_eq!(dispute_milestone::handler(&mut contest, 1), Err(EscrowError::MilestoneNotPending));
    let mut resolve = ResolveMilestoneDispute { escrow_account: after, arbiter: id(3) };
    assert_eq!(
        resolve_milestone_dispute::handler(&mut resolve, 1, DisputeWinner::Recipient),
        Err(EscrowError::InvalidStatus)
    );
}

#[test]
fn a_milestone_is_decided_once() {
    let mut contest =
        DisputeMilestone { escrow_account: milestones(&[100, 200, 300]), disputer: id(1) };
    dispute_milestone::handler(&mut contest, 0).unwrap();
    assert_eq!(disputed_count(&contest.escrow_account), 1);

    let mut resolve =
        ResolveMilestoneDispute { escrow_account: contest.escrow_account, arbiter: id(3) };
    assert_eq!(
        resolve_milestone_dispute::handler(&mut resolve, 0, DisputeWinner::Recipient),
        Ok(Payout { fee: 1, to_recipient: 99, to_creator: 0 })
    );
    assert_eq!(disputed_count(&resolve.escrow_account), 0);
    assert_eq!(resolve.escrow_account.status, EscrowStatus::Active);
    assert_eq!(
        resolve_milestone_dispute::handler(&mut resolve, 0, DisputeWinner::Creator),
        Err(EscrowError::InvalidStatus)
    );

    let mut contest = DisputeMilestone { escrow_account: resolve.escrow_account, disputer: id(2) };
    dispute_milestone::handler(&mut contest, 1).unwrap();
    let mut resolve =
        ResolveMilestoneDispute { escrow_account: contest.escrow_account, arbiter: id(3) };
    assert_eq!(
        resolve_milestone_dispute::handler(&mut resolve, 0, DisputeWinner::Creator),
        Err(EscrowError::MilestoneNotPending)
    );
    assert_eq!(
        resolve_milestone_dispute::handler(&mut resolve, 1, DisputeWinner::Creator),
        Ok(Payout { fee: 0, to_recipient: 0, to_creator: 200 })
    );
}

#[test]
fn what_leaves_a_milestone_record_is_its_total() {
    let mut left: u64 = 0;
    let mut release = ReleaseMilestone { escrow_account: milestones(&[100, 200, 300]), creator: id(1) };
    let paid = release_milestone::handler(&mut release, 2).unwrap();
    left += paid.fee + paid.to_recipient + paid.to_creator;

    let mut contest = DisputeMilestone { escrow_account: release.escrow_account, disputer: id(2) };
    dispute_milestone::handler(&mut contest, 0).unwrap();
    let mut resolve =
        ResolveMilestoneDispute { escrow_account: contest.escrow_account, arbiter: id(3) };
    let paid = resolve_milestone_dispute::handler(&mut resolve, 0, DisputeWinner::Creator).unwrap();
    left += paid.fee + paid.to_recipient + paid.to_creator;

    let mut refund =
        RefundMilestoneEscrow { escrow_account: resolve.escrow_account, creator: id(1) };
    let paid = refund_milestone_escrow::handler(&mut refund, DEADLINE).unwrap();
    left += paid.fee + paid.to_recipient + paid.to_creator;

    assert_eq!(left, 600);
    assert_eq!(refund.escrow_account.total_amount, 600);
    assert_eq!(refund.escrow_account.released_amount, 400);
}
