use nft_bid_market::fee::{mul_div_bps, payout_is_valid, split_payout};
use nft_bid_market::{calculate_origins, calculate_price_with_fees, get_fee, with_fees};

fn s(x: &str) -> String {
    x.to_string()
}

#[test]
fn protocol_fee_is_three_percent_rounded_down() {
    assert_eq!(get_fee(10_000), 300);
    assert_eq!(get_fee(10_033), 300);
    assert_eq!(get_fee(34), 1);
    assert_eq!(get_fee(33), 0);
    assert_eq!(get_fee(0), 0);
}

#[test]
fn protocol_fee_does_not_overflow_on_largest_price() {
    let expected = (u128::MAX / 10_000) * 300 + (u128::MAX % 10_000) * 300 / 10_000;
    assert_eq!(get_fee(u128::MAX), expected);
}

#[test]
fn price_with_protocol_fee() {
    assert_eq!(with_fees(10_000), 10_300);
    assert_eq!(with_fees(100), 103);
    assert_eq!(with_fees(1), 1);
}

#[test]
fn basis_point_share() {
    assert_eq!(mul_div_bps(10_000, 100), 100);
    assert_eq!(mul_div_bps(999, 5_000), 499);
    assert_eq!(mul_div_bps(u128::MAX, 10_000), u128::MAX);
}

#[test]
fn origins_total_adds_basis_points() {
    let origins = vec![(s("origin1"), 100u32), (s("origin2"), 250u32)];
    assert_eq!(calculate_origins(&origins), 350);
    assert_eq!(calculate_origins(&vec![]), 0);
}

#[test]
fn price_with_protocol_and_referral_fees() {
    let origins = vec![(s("origin1"), 100u32)];
    assert_eq!(calculate_price_with_fees(10_000, Some(&origins)), Some(10_400));
    assert_eq!(calculate_price_with_fees(10_000, None), Some(10_300));
    assert_eq!(calculate_price_with_fees(u128::MAX, None), None);
}

#[test]
fn payout_table_must_add_up_to_price_within_one_unit() {
    let exact = vec![(s("owner"), 9_500u128), (s("artist"), 500u128)];
    assert!(payout_is_valid(10_000, &exact));
    let one_short = vec![(s("owner"), 9_499u128), (s("artist"), 500u128)];
    assert!(payout_is_valid(10_000, &one_short));
    let two_short = vec![(s("owner"), 9_498u128), (s("artist"), 500u128)];
    assert!(!payout_is_valid(10_000, &two_short));
    let too_much = vec![(s("owner"), 9_501u128), (s("artist"), 500u128)];
    assert!(!payout_is_valid(10_000, &too_much));
    assert!(!payout_is_valid(10_000, &vec![]));
}

#[test]
fn payout_table_has_at_most_ten_entries() {
    let ten: Vec<(String, u128)> = (0..10).map(|i| (format!("a{}", i), 1_000u128)).collect();
    assert!(payout_is_valid(10_000, &ten));
    let eleven: Vec<(String, u128)> = (0..11).map(|i| (format!("a{}", i), 1_000u128)).collect();
    assert!(!payout_is_valid(11_000, &eleven));
}

#[test]
fn split_pays_royalties_referrals_and_owner_net_of_fees() {
    let payout = vec![(s("owner"), 9_500u128), (s("artist"), 500u128)];
    let origins = vec![(s("origin1"), 100u32)];
    let split = split_payout(10_000, &payout, &s("owner"), &origins).unwrap();
    assert_eq!(
        split,
        vec![(s("artist"), 500u128), (s("origin1"), 100u128), (s("owner"), 9_100u128)]
    );
}

#[test]
fn split_conserves_the_price() {
    let payout = vec![(s("artist"), 1_234u128), (s("owner"), 8_765u128)];
    let origins = vec![(s("o1"), 150u32), (s("o2"), 75u32)];
    let split = split_payout(9_999, &payout, &s("owner"), &origins).unwrap();
    let paid: u128 = split.iter().map(|e| e.1).sum();
    let remainder = 9_999 - 1_234 - 8_765;
    assert!(remainder <= 1);
    assert_eq!(paid + get_fee(9_999) + remainder, 9_999);
}

#[test]
fn split_refuses_owner_share_below_fees() {
    let payout = vec![(s("artist"), 9_800u128), (s("owner"), 200u128)];
    let origins = vec![(s("origin1"), 100u32)];
    assert_eq!(split_payout(10_000, &payout, &s("owner"), &origins), None);
}
