use nft_bid_market::market_core::Listing;
use nft_bid_market::{
    ArgsKind, AuctionArgs, Market, MarketError, NonFungibleTokenApprovalReceiver,
    EXTENSION_DURATION, MAX_DURATION, STORAGE_PER_SALE,
};

const NOW: u64 = 1_000_000_000_000;

fn s(x: &str) -> String {
    x.to_string()
}

fn market() -> Market {
    Market::new(vec![s("nft.near")], s("market.near"))
}

fn auction_args() -> AuctionArgs {
    AuctionArgs {
        token_type: None,
        minimal_step: 100,
        start_price: 10_000,
        start: None,
        duration: EXTENSION_DURATION,
        buy_out_price: Some(10_000_000_000),
        origins: None,
    }
}

/// A market with one auction of "1:1" by user1, open from NOW for `duration`.
fn with_auction(duration: u64) -> (Market, u128) {
    let mut m = market();
    let mut args = auction_args();
    args.duration = duration;
    let (id, json) = m
        .start_auction(args, s("1:1"), s("user1"), 0, s("nft.near"), NOW)
        .unwrap();
    assert_eq!(json.start, NOW);
    assert_eq!(json.end, NOW + duration);
    (m, id)
}

fn err<T>(r: Result<T, MarketError>) -> MarketError {
    match r {
        Ok(_) => panic!("expected an error"),
        Err(e) => e,
    }
}

#[test]
fn auction_scenario_bids_and_buyout() {
    let (mut m, id) = with_auction(EXTENSION_DURATION);
    let t = NOW + 1;
    let refund = m.auction_add_bid(id, Some(s("near")), None, s("user2"), 10_300, t).unwrap();
    assert!(refund.is_none());
    assert_eq!(m.get_current_bid(id), Ok(Some(10_300)));
    assert_eq!(
        err(m.auction_add_bid(id, Some(s("near")), None, s("user3"), 10_300, t)),
        MarketError::BidTooLow
    );
    assert_eq!(m.get_current_bid(id), Ok(Some(10_300)));
    let refund = m
        .auction_add_bid(id, Some(s("near")), None, s("user3"), 10_000_000_000, t)
        .unwrap()
        .unwrap();
    assert_eq!(refund.receiver_id, "user2");
    assert_eq!(refund.amount, 10_300);
    assert_eq!(m.get_auction_json(id).unwrap().end, t);
    assert_eq!(m.check_auction_in_progress(id, t), Ok(false));
}

#[test]
fn minimal_next_bid_is_start_price_then_previous_plus_step() {
    let (mut m, id) = with_auction(EXTENSION_DURATION);
    assert_eq!(m.get_minimal_next_bid(id), Ok(Some(10_000)));
    m.auction_add_bid(id, None, None, s("user2"), 10_300, NOW + 1).unwrap();
    assert_eq!(m.get_minimal_next_bid(id), Ok(Some(10_400)));
    assert_eq!(m.get_current_buyer(id), Ok(Some(s("user2"))));
}

#[test]
fn accepted_bids_strictly_increase_and_rejected_ones_change_nothing() {
    let (mut m, id) = with_auction(10 * EXTENSION_DURATION);
    let mut last = 0;
    for (i, amount) in [10_000u128, 10_050, 10_100, 10_099, 10_250, 10_300].iter().enumerate() {
        let bidder = format!("bidder{}", i);
        let before = m.get_auction_json(id).unwrap();
        match m.auction_add_bid(id, None, None, bidder, *amount, NOW + 1) {
            Ok(_) => {
                assert!(*amount > last);
                last = *amount;
            }
            Err(e) => {
                assert_eq!(e, MarketError::BidTooLow);
                let after = m.get_auction_json(id).unwrap();
                assert_eq!(after.end, before.end);
                assert_eq!(after.bid.map(|b| b.price), before.bid.map(|b| b.price));
            }
        }
    }
    assert_eq!(m.get_current_bid(id), Ok(Some(10_250)));
}

#[test]
fn bid_far_from_end_keeps_end() {
    let (mut m, id) = with_auction(2 * EXTENSION_DURATION);
    let end = NOW + 2 * EXTENSION_DURATION;
    let t = end - EXTENSION_DURATION;
    m.auction_add_bid(id, None, None, s("user2"), 10_000, t).unwrap();
    assert_eq!(m.get_auction_json(id).unwrap().end, end);
}

#[test]
fn bid_close_to_end_extends_by_fifteen_minutes() {
    let (mut m, id) = with_auction(2 * EXTENSION_DURATION);
    let end = NOW + 2 * EXTENSION_DURATION;
    let t = end - EXTENSION_DURATION + 1;
    m.auction_add_bid(id, None, None, s("user2"), 10_000, t).unwrap();
    assert_eq!(m.get_auction_json(id).unwrap().end, t + EXTENSION_DURATION);
    assert_eq!(m.check_auction_in_progress(id, t + 1), Ok(true));
}

#[test]
fn buyout_closes_auction_at_once() {
    let (mut m, id) = with_auction(100 * EXTENSION_DURATION);
    let t = NOW + 5;
    m.auction_add_bid(id, None, None, s("user2"), 20_000_000_000, t).unwrap();
    let json = m.get_auction_json(id).unwrap();
    assert!(json.end <= t);
    assert_eq!(m.check_auction_in_progress(id, t), Ok(false));
    assert_eq!(
        err(m.auction_add_bid(id, None, None, s("user3"), 30_000_000_000, t)),
        MarketError::AuctionNotInProgress
    );
}

#[test]
fn auction_bid_errors() {
    let (mut m, id) = with_auction(EXTENSION_DURATION);
    let t = NOW + 1;
    assert_eq!(
        err(m.auction_add_bid(id, Some(s("not_near")), None, s("user2"), 10_300, t)),
        MarketError::TokenNotSupported
    );
    assert_eq!(
        err(m.auction_add_bid(id + 1, None, None, s("user2"), 10_300, t)),
        MarketError::AuctionNotFound
    );
    assert_eq!(
        err(m.auction_add_bid(id, None, None, s("user1"), 10_300, t)),
        MarketError::OwnListing
    );
    assert_eq!(
        err(m.auction_add_bid(id, None, None, s("user2"), 9_999, t)),
        MarketError::BidTooLow
    );
    assert_eq!(
        err(m.auction_add_bid(id, None, None, s("user2"), 10_300, NOW - 1)),
        MarketError::AuctionNotInProgress
    );
    let origins = vec![(s("a"), 4_000u32), (s("b"), 700u32)];
    assert_eq!(
        err(m.auction_add_bid(id, None, Some(origins), s("user2"), 10_300, t)),
        MarketError::MaxOriginsExceeded
    );
    assert_eq!(m.get_current_bid(id), Ok(None));
}

#[test]
fn auction_creation_errors() {
    let mut m = market();
    let mut short = auction_args();
    short.duration = EXTENSION_DURATION - 1;
    assert_eq!(
        err(m.start_auction(short, s("1:1"), s("user1"), 0, s("nft.near"), NOW)),
        MarketError::IncorrectDuration
    );
    let mut long = auction_args();
    long.duration = MAX_DURATION + 1;
    assert_eq!(
        err(m.start_auction(long, s("1:1"), s("user1"), 0, s("nft.near"), NOW)),
        MarketError::IncorrectDuration
    );
    let mut other = auction_args();
    other.token_type = Some(s("usdc.near"));
    assert_eq!(
        err(m.start_auction(other, s("1:1"), s("user1"), 0, s("nft.near"), NOW)),
        MarketError::TokenNotSupported
    );
    let mut past = auction_args();
    past.start = Some(NOW - 1);
    assert_eq!(
        err(m.start_auction(past, s("1:1"), s("user1"), 0, s("nft.near"), NOW)),
        MarketError::IncorrectStartTime
    );
    let mut late = auction_args();
    late.start = Some(u64::MAX - 1);
    assert_eq!(
        err(m.start_auction(late, s("1:1"), s("user1"), 0, s("nft.near"), NOW)),
        MarketError::TimestampOverflow
    );
    m.start_auction(auction_args(), s("1:1"), s("user1"), 0, s("nft.near"), NOW).unwrap();
    assert_eq!(
        err(m.start_auction(auction_args(), s("1:1"), s("user1"), 0, s("nft.near"), NOW)),
        MarketError::ListingExists
    );
}

#[test]
fn cancel_auction_only_by_owner_before_first_bid() {
    let (mut m, id) = with_auction(EXTENSION_DURATION);
    assert_eq!(m.cancel_auction(id, s("user2")), Err(MarketError::NotOwner));
    assert_eq!(m.cancel_auction(id + 7, s("user1")), Err(MarketError::AuctionNotFound));
    m.auction_add_bid(id, None, None, s("user2"), 10_000, NOW + 1).unwrap();
    assert_eq!(m.cancel_auction(id, s("user1")), Err(MarketError::AuctionHasBid));

    let (mut m, id) = with_auction(EXTENSION_DURATION);
    assert_eq!(m.cancel_auction(id, s("user1")), Ok(()));
    assert_eq!(err(m.get_auction_json(id)), MarketError::AuctionNotFound);
}

#[test]
fn finish_auction_after_end_with_a_bid() {
    let (mut m, id) = with_auction(EXTENSION_DURATION);
    let end = NOW + EXTENSION_DURATION;
    assert_eq!(err(m.finish_auction(id, end + 1)), MarketError::AuctionHasNoBid);
    m.auction_add_bid(id, None, None, s("user2"), 10_400, NOW + 1).unwrap();
    let extended = m.get_auction_json(id).unwrap().end;
    assert_eq!(extended, NOW + 1 + EXTENSION_DURATION);
    assert_eq!(err(m.finish_auction(id, extended)), MarketError::AuctionNotEnded);
    let closed = m.finish_auction(id, extended + 1).unwrap();
    assert_eq!(closed.bid.unwrap().price, 10_400);
    assert_eq!(err(m.finish_auction(id, extended + 1)), MarketError::AuctionNotFound);
    assert_eq!(err(m.get_auction_json(id)), MarketError::AuctionNotFound);
}

#[test]
fn auction_settlement_pays_out_or_refunds() {
    let m = market();
    let payout = vec![(s("user1"), 9_500u128), (s("artist"), 500u128)];
    let origins = vec![(s("origin1"), 100u32)];
    let done = m.resolve_finish_auction(
        s("near"),
        s("user2"),
        s("user1"),
        10_000,
        origins.clone(),
        Some(payout),
    );
    assert_eq!(done.undisbursed, 0);
    let paid: Vec<(String, u128)> =
        done.transfers.iter().map(|t| (t.receiver_id.clone(), t.amount)).collect();
    assert_eq!(
        paid,
        vec![(s("artist"), 500), (s("origin1"), 100), (s("user1"), 9_100)]
    );
    let bad = vec![(s("user1"), 5_000u128)];
    let failed =
        m.resolve_finish_auction(s("near"), s("user2"), s("user1"), 10_000, origins, Some(bad));
    assert_eq!(failed.undisbursed, 10_000);
    assert_eq!(failed.transfers.len(), 1);
    assert_eq!(failed.transfers[0].receiver_id, "user2");
    assert_eq!(failed.transfers[0].amount, 10_000);
    let lost = m.resolve_finish_auction(s("near"), s("user2"), s("user1"), 10_000, vec![], None);
    assert_eq!(lost.undisbursed, 10_000);
}

#[test]
fn approval_creates_an_auction() {
    let mut m = market();
    m.storage_deposit(None, s("user1"), STORAGE_PER_SALE).unwrap();
    let listing = m
        .nft_on_approve(
            s("1:1"),
            s("user1"),
            3,
            ArgsKind::Auction(auction_args()),
            s("nft.near"),
            s("user1"),
            NOW,
        )
        .unwrap();
    match listing {
        Listing::Auction(id, json) => {
            assert_eq!(id, 0);
            assert_eq!(json.start_price, 10_000);
            assert_eq!(json.minimal_step, 100);
            assert_eq!(json.buy_out_price, Some(10_000_000_000));
            assert_eq!(json.ft_token_id, "near");
        }
        Listing::Sale(_) => panic!("expected an auction"),
    }
}

#[test]
fn zero_step_still_requires_a_higher_bid() {
    let mut m = market();
    let mut args = auction_args();
    args.minimal_step = 0;
    let (id, _) = m.start_auction(args, s("1:1"), s("user1"), 0, s("nft.near"), NOW).unwrap();
    m.auction_add_bid(id, None, None, s("user2"), 10_000, NOW + 1).unwrap();
    assert_eq!(m.get_minimal_next_bid(id), Ok(Some(10_001)));
    assert_eq!(
        err(m.auction_add_bid(id, None, None, s("user3"), 10_000, NOW + 1)),
        MarketError::BidTooLow
    );
    m.auction_add_bid(id, None, None, s("user3"), 10_001, NOW + 1).unwrap();
    assert_eq!(m.get_current_bid(id), Ok(Some(10_001)));
}
