use escrow::errors::EscrowError;
use escrow::fees::{calculate_fee, BPS_DENOMINATOR, MAX_FEE_BASIS_POINTS};
use escrow::rules::{pay, repay, settle, DisputeWinner, Payout};

#[test]
fn fee_constants() {
    assert_eq!(BPS_DENOMINATOR, 10_000);
    assert_eq!(MAX_FEE_BASIS_POINTS, 1000);
}

#[test]
fn fee_of_one_million_at_250_bps() {
    assert_eq!(calculate_fee(1_000_000, 250), Ok((25_000, 975_000)));
}

#[test]
fn fee_rounds_down() {
    assert_eq!(calculate_fee(9_999, 1), Ok((0, 9_999)));
    assert_eq!(calculate_fee(10_000, 1), Ok((1, 9_999)));
    assert_eq!(calculate_fee(19_999, 1), Ok((1, 19_998)));
    assert_eq!(calculate_fee(333, 150), Ok((4, 329)));
}

#[test]
fn fee_at_zero_rate_is_zero() {
    assert_eq!(calculate_fee(1_000_000, 0), Ok((0, 1_000_000)));
    assert_eq!(calculate_fee(u64::MAX, 0), Ok((0, u64::MAX)));
}

#[test]
fn fee_of_zero_amount_is_zero() {
    assert_eq!(calculate_fee(0, 1000), Ok((0, 0)));
}

#[test]
fn fee_at_the_cap_is_a_tenth() {
    assert_eq!(calculate_fee(1_000_000, 1000), Ok((100_000, 900_000)));
}

#[test]
fn fee_on_the_largest_amount_does_not_overflow() {
    let (fee, net) = calculate_fee(u64::MAX, 1000).unwrap();
    assert_eq!(fee, 1_844_674_407_370_955_161);
    assert_eq!(net, u64::MAX - 1_844_674_407_370_955_161);
    assert_eq!(fee as u128 + net as u128, u64::MAX as u128);
}

#[test]
fn fee_plus_net_is_the_amount() {
    let amounts = [0u64, 1, 3, 9_999, 10_000, 10_001, 123_456_789, 1 << 40, u64::MAX - 1, u64::MAX];
    let rates = [0u16, 1, 7, 250, 999, 1000];
    for amount in amounts {
        for bps in rates {
            let (fee, net) = calculate_fee(amount, bps).unwrap();
            assert_eq!(fee as u128 + net as u128, amount as u128);
            assert!(fee <= amount);
            assert_eq!(fee as u128, amount as u128 * bps as u128 / 10_000);
        }
    }
}

#[test]
fn fee_at_one_hundred_percent_takes_all() {
    assert_eq!(calculate_fee(500, 10_000), Ok((500, 0)));
}

#[test]
fn fee_above_the_amount_is_an_overflow() {
    assert_eq!(calculate_fee(10_000, 10_001), Err(EscrowError::Overflow));
    assert_eq!(calculate_fee(u64::MAX, u16::MAX), Err(EscrowError::Overflow));
}

#[test]
fn fee_above_one_hundred_percent_on_a_small_amount_rounds_within() {
    // 3 * 10_001 / 10_000 is still 3: no more than the amount.
    assert_eq!(calculate_fee(3, 10_001), Ok((3, 0)));
}

#[test]
fn pay_sends_fee_and_rest() {
    assert_eq!(
        pay(1_000_000, 250),
        Ok(Payout { fee: 25_000, to_recipient: 975_000, to_creator: 0 })
    );
}

#[test]
fn repay_sends_all_to_the_creator() {
    assert_eq!(repay(777), Payout { fee: 0, to_recipient: 0, to_creator: 777 });
}

#[test]
fn settle_for_the_creator_takes_no_fee() {
    assert_eq!(
        settle(1_000_000, 250, DisputeWinner::Creator),
        Ok(Payout { fee: 0, to_recipient: 0, to_creator: 1_000_000 })
    );
    // Not even a rate that no payment could bear stands in the way.
    assert_eq!(
        settle(10_000, u16::MAX, DisputeWinner::Creator),
        Ok(Payout { fee: 0, to_recipient: 0, to_creator: 10_000 })
    );
}

#[test]
fn settle_for_the_recipient_takes_the_fee() {
    assert_eq!(
        settle(1_000_000, 250, DisputeWinner::Recipient),
        Ok(Payout { fee: 25_000, to_recipient: 975_000, to_creator: 0 })
    );
    assert_eq!(settle(10_000, u16::MAX, DisputeWinner::Recipient), Err(EscrowError::Overflow));
}
