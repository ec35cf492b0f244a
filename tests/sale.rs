use nft_bid_market::market_core::Listing;
use nft_bid_market::{
    ArgsKind, Market, MarketError, NonFungibleTokenApprovalReceiver, OfferOutcome, Sale, SaleArgs,
    STORAGE_PER_SALE,
};

const NOW: u64 = 5_000_000_000_000;

fn s(x: &str) -> String {
    x.to_string()
}

fn market() -> Market {
    Market::new(vec![s("nft.near")], s("market.near"))
}

fn sale_args(price: u128) -> SaleArgs {
    SaleArgs {
        sale_conditions: vec![(s("near"), price)],
        token_type: None,
        start: None,
        end: None,
        origins: None,
    }
}

/// A market where user1 sells "1:1" of nft.near at `price`, listed at NOW.
fn with_sale(price: u128) -> Market {
    let mut m = market();
    m.storage_deposit(None, s("user1"), STORAGE_PER_SALE).unwrap();
    match m
        .on_approve(
            s("1:1"),
            s("user1"),
            0,
            ArgsKind::Sale(sale_args(price)),
            s("nft.near"),
            s("user1"),
            NOW,
        )
        .unwrap()
    {
        Listing::Sale(json) => assert_eq!(json.sale_conditions, vec![(s("near"), price)]),
        Listing::Auction(..) => panic!("expected a sale"),
    }
    m
}

fn err<T>(r: Result<T, MarketError>) -> MarketError {
    match r {
        Ok(_) => panic!("expected an error"),
        Err(e) => e,
    }
}

fn bid_id(outcome: OfferOutcome) -> u128 {
    match outcome {
        OfferOutcome::BidPlaced(id, _) => id,
        OfferOutcome::Purchased(_) => panic!("expected a bid"),
    }
}

#[test]
fn escrow_backs_the_accepted_bid_only() {
    let mut m = with_sale(10_000);
    m.bid_deposit(None, None, s("user2"), 250).unwrap();
    let first = m
        .offer(s("nft.near"), s("1:1"), s("near"), 100, None, None, None, s("user2"), NOW)
        .unwrap();
    bid_id(first);
    let second = m
        .offer(s("nft.near"), s("1:1"), s("near"), 150, None, None, None, s("user2"), NOW)
        .unwrap();
    match second {
        OfferOutcome::BidPlaced(_, Some(replaced)) => assert_eq!(replaced.price, 100),
        _ => panic!("expected a replacing bid"),
    }
    let ids = m.get_bids_by_nft_and_token(s("nft.near"), s("1:1"), s("near"));
    assert_eq!(ids.len(), 1);
    assert_eq!(m.get_bid_by_index(ids[0]).unwrap().price, 150);
    let pending = m
        .accept_bid(s("nft.near"), s("1:1"), s("near"), s("user1"), NOW + 1)
        .unwrap();
    assert_eq!(pending.price, 150);
    assert_eq!(pending.buyer_id, "user2");
    assert_eq!(m.view_deposit(None, s("user2")), Ok(100));
    assert!(m.get_sale(s("nft.near"), s("1:1")).is_none());
    assert!(m.get_bids_by_nft_and_token(s("nft.near"), s("1:1"), s("near")).is_empty());
}

#[test]
fn one_bid_per_owner_per_item_whatever_the_currency() {
    let mut m = with_sale(10_000);
    m.market.ft_token_ids.push(s("usdc.near"));
    let mut refunds = 0;
    for (i, ft) in ["near", "usdc.near", "near", "usdc.near"].iter().enumerate() {
        let (_, replaced) = m
            .add_bid(
                s("nft.near"),
                s("1:1"),
                100 + i as u128,
                s(ft),
                s("user2"),
                NOW,
                None,
                None,
            )
            .unwrap();
        if replaced.is_some() {
            refunds += 1;
        }
    }
    assert_eq!(refunds, 3);
    let mine = m.get_bids_id_by_account(s("user2"));
    assert_eq!(mine.len(), 1);
    let bid = m.get_bid_by_index(mine[0]).unwrap();
    assert_eq!(bid.price, 103);
    assert_eq!(bid.fungible_token, "usdc.near");
}

#[test]
fn best_bid_is_highest_then_earliest() {
    let mut m = with_sale(1_000_000);
    for (who, price, start) in [("a", 500u128, 10u64), ("b", 700, 30), ("c", 700, 20), ("d", 900, 5)]
    {
        m.bid_deposit(None, None, s(who), 800).unwrap();
        m.offer(s("nft.near"), s("1:1"), s("near"), price, Some(start), None, None, s(who), NOW)
            .unwrap();
    }
    // d bids 900 but holds only 800 in escrow: it cannot be selected.
    let pending = m
        .accept_bid(s("nft.near"), s("1:1"), s("near"), s("user1"), NOW + 1)
        .unwrap();
    assert_eq!(pending.buyer_id, "c");
    assert_eq!(pending.price, 700);
    assert_eq!(m.view_deposit(None, s("c")), Ok(100));
    assert_eq!(m.view_deposit(None, s("d")), Ok(800));
}

#[test]
fn accept_bid_errors() {
    let mut m = with_sale(10_000);
    assert_eq!(
        err(m.accept_bid(s("nft.near"), s("2:2"), s("near"), s("user1"), NOW + 1)),
        MarketError::SaleNotFound
    );
    assert_eq!(
        err(m.accept_bid(s("nft.near"), s("1:1"), s("near"), s("user2"), NOW + 1)),
        MarketError::NotOwner
    );
    assert_eq!(
        err(m.accept_bid(s("nft.near"), s("1:1"), s("near"), s("user1"), NOW)),
        MarketError::SaleNotInProgress
    );
    assert_eq!(
        err(m.accept_bid(s("nft.near"), s("1:1"), s("near"), s("user1"), NOW + 1)),
        MarketError::NoActiveBids
    );
    // A bid without escrow behind it stays in the ledger but cannot be accepted.
    m.offer(s("nft.near"), s("1:1"), s("near"), 200, None, None, None, s("user2"), NOW)
        .unwrap();
    assert_eq!(
        err(m.accept_bid(s("nft.near"), s("1:1"), s("near"), s("user1"), NOW + 1)),
        MarketError::NoActiveBids
    );
    assert_eq!(m.get_bids_id_by_account(s("user2")).len(), 1);
}

#[test]
fn offer_at_price_with_fees_buys_at_once() {
    let mut m = with_sale(10_000);
    m.bid_deposit(None, None, s("user2"), 20_000).unwrap();
    let outcome = m
        .offer(s("nft.near"), s("1:1"), s("near"), 10_300, None, None, None, s("user2"), NOW)
        .unwrap();
    match outcome {
        OfferOutcome::Purchased(p) => {
            assert_eq!(p.price, 10_300);
            assert_eq!(p.fees.buyer, vec![(s("market.near"), 300)]);
            assert_eq!(p.fees.seller, vec![(s("market.near"), 300)]);
        }
        OfferOutcome::BidPlaced(..) => panic!("expected a purchase"),
    }
    assert_eq!(m.view_deposit(None, s("user2")), Ok(9_700));
    assert_eq!(m.get_supply_sales(), 0);
}

#[test]
fn offer_errors() {
    let mut m = with_sale(10_000);
    let c = || s("nft.near");
    assert_eq!(
        err(m.offer(c(), s("1:1"), s("near"), 0, None, None, None, s("user2"), NOW)),
        MarketError::OfferedPriceZero
    );
    assert_eq!(
        err(m.offer(c(), s("1:1"), s("near"), 10, Some(u64::MAX), Some(2), None, s("user2"), NOW)),
        MarketError::TimestampOverflow
    );
    let origins = vec![(s("acc1.near"), 4_701u32)];
    assert_eq!(
        err(m.offer(c(), s("1:1"), s("near"), 10, None, None, Some(origins), s("user2"), NOW)),
        MarketError::MaxOriginsExceeded
    );
    assert_eq!(
        err(m.offer(c(), s("1:1"), s("near"), 10, None, None, None, s("user1"), NOW)),
        MarketError::OwnListing
    );
    assert_eq!(
        err(m.offer(c(), s("1:1"), s("nearcoin"), 10, None, None, None, s("user2"), NOW)),
        MarketError::PriceNotSet
    );
    assert_eq!(
        err(m.offer(c(), s("9:9"), s("nearcoin"), 10, None, None, None, s("user2"), NOW)),
        MarketError::TokenNotSupported
    );
}

#[test]
fn settlement_failure_refunds_escrow_success_keeps_debit() {
    let mut m = with_sale(10_000);
    m.bid_deposit(None, None, s("user2"), 1_000).unwrap();
    m.offer(s("nft.near"), s("1:1"), s("near"), 400, None, None, None, s("user2"), NOW)
        .unwrap();
    let pending = m
        .accept_bid(s("nft.near"), s("1:1"), s("near"), s("user1"), NOW + 1)
        .unwrap();
    assert_eq!(m.view_deposit(None, s("user2")), Ok(600));
    let refused = m.resolve_purchase(
        pending.ft_token_id,
        pending.buyer_id,
        pending.sale,
        pending.price,
        None,
    );
    assert_eq!(refused.undisbursed, 400);
    assert!(refused.transfers.is_empty());
    assert_eq!(m.view_deposit(None, s("user2")), Ok(1_000));
    assert!(m.get_sale(s("nft.near"), s("1:1")).is_none());

    let mut m = with_sale(10_000);
    m.bid_deposit(None, None, s("user2"), 1_000).unwrap();
    m.offer(s("nft.near"), s("1:1"), s("near"), 400, None, None, None, s("user2"), NOW)
        .unwrap();
    let pending = m
        .accept_bid(s("nft.near"), s("1:1"), s("near"), s("user1"), NOW + 1)
        .unwrap();
    let payout = Some(vec![(s("user1"), 400u128)]);
    let done = m.resolve_purchase(
        pending.ft_token_id,
        pending.buyer_id,
        pending.sale,
        pending.price,
        payout,
    );
    assert_eq!(done.undisbursed, 0);
    assert_eq!(done.transfers.len(), 1);
    assert_eq!(done.transfers[0].receiver_id, "user1");
    assert_eq!(done.transfers[0].amount, 388);
    assert_eq!(m.view_deposit(None, s("user2")), Ok(600));
}

#[test]
fn remove_and_cancel_bids() {
    let mut m = with_sale(10_000);
    let id = bid_id(
        m.offer(s("nft.near"), s("1:1"), s("near"), 900, None, Some(100), None, s("user2"), NOW)
            .unwrap(),
    );
    assert_eq!(
        err(m.remove_bid(s("nft.near"), s("1:1"), s("near"), 900, id, s("user3"))),
        MarketError::BidNotFound
    );
    assert_eq!(
        err(m.cancel_bid(s("nft.near"), s("1:1"), s("near"), s("user2"), 900, id, NOW + 99)),
        MarketError::BidNotEnded
    );
    let bid = m
        .cancel_bid(s("nft.near"), s("1:1"), s("near"), s("user2"), 900, id, NOW + 100)
        .unwrap();
    assert_eq!(bid.bid_id, id);
    assert_eq!(err(m.get_bid_by_index(id)), MarketError::BidNotFound);

    let open = bid_id(
        m.offer(s("nft.near"), s("1:1"), s("near"), 950, None, None, None, s("user3"), NOW)
            .unwrap(),
    );
    assert_eq!(
        err(m.cancel_bid(s("nft.near"), s("1:1"), s("near"), s("user3"), 950, open, NOW + 999)),
        MarketError::BidHasNoEnd
    );
    assert!(m.remove_bid(s("nft.near"), s("1:1"), s("near"), 950, open, s("user3")).is_ok());
    assert!(m.get_bids_id_by_account(s("user3")).is_empty());
}

#[test]
fn sweep_removes_only_expired_bids() {
    let mut m = with_sale(10_000);
    let a = bid_id(
        m.offer(s("nft.near"), s("1:1"), s("near"), 900, None, Some(100), None, s("user2"), NOW)
            .unwrap(),
    );
    let b = bid_id(
        m.offer(s("nft.near"), s("1:1"), s("near"), 950, None, Some(50), None, s("user3"), NOW)
            .unwrap(),
    );
    let c = bid_id(
        m.offer(s("nft.near"), s("1:1"), s("near"), 1_000, None, None, None, s("user4"), NOW)
            .unwrap(),
    );
    assert_eq!(m.get_bids_by_nft_and_token(s("nft.near"), s("1:1"), s("near")).len(), 3);
    let removed = m.cancel_expired_bids(s("nft.near"), s("1:1"), s("near"), NOW + 100);
    assert_eq!(removed, vec![a, b]);
    assert_eq!(m.get_bids_by_nft_and_token(s("nft.near"), s("1:1"), s("near")), vec![c]);
    assert!(m.get_bids_id_by_account(s("user2")).is_empty());
}

#[test]
fn escrow_deposit_and_withdraw() {
    let mut m = market();
    assert_eq!(err(m.view_deposit(None, s("user1"))), MarketError::BidAccountNotFound);
    m.bid_deposit(None, None, s("user1"), 250).unwrap();
    assert_eq!(m.view_deposit(None, s("user1")), Ok(250));
    assert_eq!(err(m.bid_withdraw(Some(300), None, s("user1"))), MarketError::NotEnoughFunds);
    let t = m.bid_withdraw(Some(200), None, s("user1")).unwrap();
    assert_eq!(t.amount, 200);
    assert_eq!(m.view_deposit(None, s("user1")), Ok(50));
    let rest = m.bid_withdraw(None, None, s("user1")).unwrap();
    assert_eq!(rest.amount, 50);
    assert_eq!(m.get_total_bid_balance(None, s("user1")), Ok(0));
    assert_eq!(
        err(m.bid_withdraw(None, Some(s("not_near")), s("user1"))),
        MarketError::BidAccountNotFound
    );
    m.bid_deposit(Some(s("user2")), None, s("user1"), u128::MAX).unwrap();
    assert_eq!(m.bid_deposit(None, None, s("user2"), 1), Err(MarketError::BalanceOverflow));
}

#[test]
fn listing_requires_storage_and_a_cross_contract_call() {
    let mut m = market();
    let approve = |m: &mut Market, token: &str, signer: &str, owner: &str| {
        m.on_approve(
            s(token),
            s(owner),
            0,
            ArgsKind::Sale(sale_args(10)),
            s("nft.near"),
            s(signer),
            NOW,
        )
    };
    assert_eq!(err(approve(&mut m, "1:1", "user1", "user1")), MarketError::InsufficientStorage);
    assert_eq!(
        m.storage_deposit(None, s("user1"), STORAGE_PER_SALE - 1),
        Err(MarketError::StorageDepositTooSmall)
    );
    m.storage_deposit(None, s("user1"), STORAGE_PER_SALE).unwrap();
    assert_eq!(err(approve(&mut m, "1:1", "nft.near", "nft.near")), MarketError::NotCrossContractCall);
    assert_eq!(err(approve(&mut m, "1:1", "user1", "user2")), MarketError::OwnerNotSigner);
    assert!(approve(&mut m, "1:1", "user1", "user1").is_ok());
    assert_eq!(err(approve(&mut m, "1:2", "user1", "user1")), MarketError::InsufficientStorage);
    assert_eq!(m.get_supply_by_owner_id(s("user1")), 1);
    assert!(m.storage_withdraw(s("user2")).unwrap().is_none());
}

#[test]
fn sale_creation_errors() {
    let mut m = market();
    m.storage_deposit(None, s("user1"), 10 * STORAGE_PER_SALE).unwrap();
    let mut bad_ft = sale_args(10);
    bad_ft.sale_conditions.push((s("nearcoin"), 5));
    assert_eq!(
        err(m.start_sale(bad_ft, s("1:1"), s("user1"), 0, s("nft.near"), NOW)),
        MarketError::TokenNotSupported
    );
    let mut capped = sale_args(10);
    capped.origins = Some(vec![(s("a"), 5_000)]);
    assert_eq!(
        err(m.start_sale(capped, s("1:1"), s("user1"), 0, s("nft.near"), NOW)),
        MarketError::MaxOriginsExceeded
    );
    let mut typed = sale_args(10);
    typed.token_type = Some(s("7"));
    assert_eq!(
        err(m.start_sale(typed, s("1:1"), s("user1"), 0, s("nft.near"), NOW)),
        MarketError::TokenTypeNotInTokenId
    );
    let mut typed = sale_args(10);
    typed.token_type = Some(s("1:"));
    assert!(m.start_sale(typed, s("1:1"), s("user1"), 0, s("nft.near"), NOW).is_ok());
    assert_eq!(
        err(m.start_sale(sale_args(10), s("1:1"), s("user1"), 0, s("nft.near"), NOW)),
        MarketError::ListingExists
    );
    assert_eq!(m.get_supply_by_nft_token_type(s("1:")), 1);
    assert_eq!(m.get_sales_by_nft_token_type(s("1:"), 0, 10).len(), 1);
}

#[test]
fn storage_withdraw_keeps_what_listings_occupy() {
    let mut m = with_sale(10);
    m.storage_deposit(None, s("user1"), 2 * STORAGE_PER_SALE).unwrap();
    let refund = m.storage_withdraw(s("user1")).unwrap().unwrap();
    assert_eq!(refund.amount, 2 * STORAGE_PER_SALE);
    assert_eq!(refund.receiver_id, "user1");
    assert!(m.storage_withdraw(s("user1")).unwrap().is_none());
    assert_eq!(m.storage_amount(), STORAGE_PER_SALE);
}

#[test]
fn update_price_and_remove_sale() {
    let mut m = with_sale(42_000);
    assert_eq!(
        m.update_price(s("nft.near"), s("1:1"), s("near"), 10_000, s("user2")),
        Err(MarketError::NotOwner)
    );
    assert_eq!(
        m.update_price(s("nft.near"), s("1:1"), s("nearcoin"), 10_000, s("user1")),
        Err(MarketError::TokenNotSupported)
    );
    assert_eq!(
        m.update_price(s("nft.near"), s("2:2"), s("near"), 10_000, s("user1")),
        Err(MarketError::SaleNotFound)
    );
    m.update_price(s("nft.near"), s("1:1"), s("near"), 10_000, s("user1")).unwrap();
    let sale = m.get_sale(s("nft.near"), s("1:1")).unwrap();
    assert_eq!(sale.sale_conditions, vec![(s("near"), 10_000)]);

    assert_eq!(
        err(m.remove_sale(s("nft.near"), s("1:1"), s("user2"), NOW + 1)),
        MarketError::NotOwner
    );
    assert!(m.remove_sale(s("nft.near"), s("1:1"), s("user1"), NOW + 1).is_ok());
    assert!(m.get_sale(s("nft.near"), s("1:1")).is_none());
    assert_eq!(
        err(m.remove_sale(s("nft.near"), s("1:1"), s("user1"), NOW + 1)),
        MarketError::SaleNotFound
    );
}

#[test]
fn sale_views_paginate() {
    let mut m = market();
    m.storage_deposit(None, s("user1"), 10 * STORAGE_PER_SALE).unwrap();
    m.storage_deposit(None, s("user2"), 10 * STORAGE_PER_SALE).unwrap();
    for (token, owner, contract) in [
        ("1:1", "user1", "nft.near"),
        ("1:2", "user2", "nft.near"),
        ("1:3", "user1", "other.near"),
        ("1:4", "user1", "nft.near"),
    ] {
        m.start_sale(sale_args(10), s(token), s(owner), 0, s(contract), NOW).unwrap();
    }
    assert_eq!(m.get_supply_sales(), 4);
    let all: Vec<String> = m.get_sales(None, None).into_iter().map(|j| j.token_id).collect();
    assert_eq!(all, vec![s("1:1"), s("1:2"), s("1:3"), s("1:4")]);
    let page: Vec<String> =
        m.get_sales(Some(1), Some(2)).into_iter().map(|j| j.token_id).collect();
    assert_eq!(page, vec![s("1:2"), s("1:3")]);
    assert_eq!(m.get_supply_by_owner_id(s("user1")), 3);
    let mine: Vec<String> = m
        .get_sales_by_owner_id(s("user1"), 1, 5)
        .into_iter()
        .map(|j| j.token_id)
        .collect();
    assert_eq!(mine, vec![s("1:3"), s("1:4")]);
    assert_eq!(m.get_supply_by_nft_contract_id(s("nft.near")), 3);
    let by_contract: Vec<String> = m
        .get_sales_by_nft_contract_id(s("nft.near"), 0, 2)
        .into_iter()
        .map(|j| j.token_id)
        .collect();
    assert_eq!(by_contract, vec![s("1:1"), s("1:2")]);
    assert!(m.get_sales_by_nft_contract_id(s("nft.near"), 7, 2).is_empty());
    assert_eq!(m.get_supply_by_nft_token_type(s("1")), 0);
}

#[test]
fn sale_window_and_extension() {
    let mut m = market();
    m.storage_deposit(None, s("user1"), STORAGE_PER_SALE).unwrap();
    let mut args = sale_args(10);
    args.end = Some(NOW + 10);
    m.start_sale(args, s("1:1"), s("user1"), 0, s("nft.near"), NOW).unwrap();
    let mut sale = Sale {
        owner_id: s("user1"),
        approval_id: 0,
        nft_contract_id: s("nft.near"),
        token_id: s("1:1"),
        sale_conditions: vec![],
        created_at: NOW,
        token_type: None,
        start: Some(NOW),
        end: Some(NOW + 10),
        origins: vec![],
    };
    assert!(m.market.sales[0].in_limits(NOW + 5));
    assert!(!m.market.sales[0].in_limits(NOW + 10));
    assert!(!m.market.sales[0].in_limits(NOW));
    assert!(sale.extend(5));
    assert_eq!(sale.end, Some(NOW + 15));
    assert!(sale.in_limits(NOW + 10));
    sale.end = None;
    assert!(!sale.extend(5));
    // Once the window has closed anyone may take the sale down.
    assert!(m.remove_sale(s("nft.near"), s("1:1"), s("user9"), NOW + 10).is_ok());
}

#[test]
fn well_formedness_check_catches_duplicate_bids() {
    let mut m = with_sale(10_000);
    assert!(m.is_well_formed());
    m.offer(s("nft.near"), s("1:1"), s("near"), 500, None, None, None, s("user2"), NOW)
        .unwrap();
    m.bid_deposit(None, None, s("user2"), 10).unwrap();
    assert!(m.is_well_formed());
    let copy = m.get_bid_by_index(0).unwrap();
    let mut twin = copy;
    twin.bid_id = 1;
    m.market.bids.push(Some(twin));
    m.market.next_bid_id = 2;
    assert!(!m.is_well_formed());
}

#[test]
fn bids_on_an_item_are_listed_by_price() {
    let mut m = with_sale(1_000_000);
    let mut ids = Vec::new();
    for (who, price) in [("a", 300u128), ("b", 100), ("c", 200), ("d", 100)] {
        ids.push(bid_id(
            m.offer(s("nft.near"), s("1:1"), s("near"), price, None, None, None, s(who), NOW)
                .unwrap(),
        ));
    }
    let listed = m.get_bids_by_nft_and_token(s("nft.near"), s("1:1"), s("near"));
    assert_eq!(listed, vec![ids[1], ids[3], ids[2], ids[0]]);
}

#[test]
fn accepted_bid_hands_on_its_referral_table() {
    let mut m = with_sale(1_000_000);
    m.bid_deposit(None, None, s("user2"), 1_000).unwrap();
    let origins = vec![(s("ref.near"), 100u32)];
    m.offer(s("nft.near"), s("1:1"), s("near"), 500, None, None, Some(origins), s("user2"), NOW)
        .unwrap();
    let pending = m
        .accept_bid(s("nft.near"), s("1:1"), s("near"), s("user1"), NOW + 1)
        .unwrap();
    assert_eq!(pending.fees.buyer, vec![(s("ref.near"), 100), (s("market.near"), 300)]);
    assert_eq!(pending.fees.seller, vec![(s("market.near"), 300)]);
    assert_eq!(
        m.with_protocol_fee(&vec![(s("x"), 5)]),
        vec![(s("x"), 5), (s("market.near"), 300)]
    );
}

#[test]
fn approval_through_the_receiver_lists_a_sale() {
    let mut m = market();
    m.storage_deposit(None, s("user1"), 2 * STORAGE_PER_SALE).unwrap();
    assert_eq!(m.get_supply_by_owner_id(s("user1")), 0);
    let listing = m
        .nft_on_approve(
            s("1:1"),
            s("user1"),
            7,
            ArgsKind::Sale(sale_args(10)),
            s("nft.near"),
            s("user1"),
            NOW,
        )
        .unwrap();
    assert!(matches!(listing, Listing::Sale(_)));
    assert_eq!(m.get_supply_by_owner_id(s("user1")), 1);
    assert_eq!(m.market.sales[0].approval_id, 7);
    assert_eq!(
        err(m.nft_on_approve(
            s("1:2"),
            s("user2"),
            8,
            ArgsKind::Sale(sale_args(10)),
            s("nft.near"),
            s("user1"),
            NOW,
        )),
        MarketError::OwnerNotSigner
    );
    assert_eq!(m.get_supply_sales(), 1);
}
