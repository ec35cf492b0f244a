use vstd::prelude::*;

use crate::auction::AuctionJson;
use crate::{AccountId, Market, MarketError};

verus! {

impl Market {
    /// The owner of the current bid of auction `auction_id`, if it has one.
    pub fn get_current_buyer(&self, auction_id: u128) -> (r: Result<Option<AccountId>, MarketError>)
        ensures
            r is Ok <==> self.spec_auction(auction_id as int) is Some,
            r is Err ==> r == Err::<Option<AccountId>, MarketError>(MarketError::AuctionNotFound),
            r matches Ok(buyer) ==> {
                let a = self.spec_auction(auction_id as int)->0;
                &&& (buyer is Some <==> a.bid is Some)
                &&& buyer matches Some(o) ==> o == a.bid->0.owner_id
            },
    {
        if auction_id < self.market.auctions.len() as u128 {
            if let Some(a) = &self.market.auctions[auction_id as usize] {
                return Ok(
                    match &a.bid {
                        Some(b) => Some(b.owner_id.clone()),
                        None => None,
                    },
                );
            }
        }
        Err(MarketError::AuctionNotFound)
    }

    /// Whether auction `auction_id` takes bids at `now`.
    pub fn check_auction_in_progress(&self, auction_id: u128, now: u64) -> (r: Result<
        bool,
        MarketError,
    >)
        ensures
            r is Ok <==> self.spec_auction(auction_id as int) is Some,
            r is Err ==> r == Err::<bool, MarketError>(MarketError::AuctionNotFound),
            r matches Ok(b) ==> b == self.spec_auction(auction_id as int)->0.spec_in_progress(now),
    {
        if auction_id < self.market.auctions.len() as u128 {
            if let Some(a) = &self.market.auctions[auction_id as usize] {
                return Ok(a.start <= now && now < a.end);
            }
        }
        Err(MarketError::AuctionNotFound)
    }

    /// What a reader sees of auction `auction_id`.
    pub fn get_auction_json(&self, auction_id: u128) -> (r: Result<AuctionJson, MarketError>)
        ensures
            r is Ok <==> self.spec_auction(auction_id as int) is Some,
            r is Err ==> r == Err::<AuctionJson, MarketError>(MarketError::AuctionNotFound),
            r matches Ok(json) ==> self.spec_auction(auction_id as int)->0.shown_by(json),
    {
        if auction_id < self.market.auctions.len() as u128 {
            if let Some(a) = &self.market.auctions[auction_id as usize] {
                return Ok(a.to_json());
            }
        }
        Err(MarketError::AuctionNotFound)
    }

    /// The smallest bid auction `auction_id` accepts next; `None` when no amount is enough.
    pub fn get_minimal_next_bid(&self, auction_id: u128) -> (r: Result<Option<u128>, MarketError>)
        ensures
            r is Ok <==> self.spec_auction(auction_id as int) is Some,
            r is Err ==> r == Err::<Option<u128>, MarketError>(MarketError::AuctionNotFound),
            r matches Ok(m) ==> m == self.spec_auction(auction_id as int)->0.spec_minimal_next_bid(),
    {
        if auction_id < self.market.auctions.len() as u128 {
            if let Some(a) = &self.market.auctions[auction_id as usize] {
                return Ok(
                    match &a.bid {
                        Some(b) => b.price.checked_add(a.step()),
                        None => Some(a.start_price),
                    },
                );
            }
        }
        Err(MarketError::AuctionNotFound)
    }

    /// The price of the current bid of auction `auction_id`, if it has one.
    pub fn get_current_bid(&self, auction_id: u128) -> (r: Result<Option<u128>, MarketError>)
        ensures
            r is Ok <==> self.spec_auction(auction_id as int) is Some,
            r is Err ==> r == Err::<Option<u128>, MarketError>(MarketError::AuctionNotFound),
            r matches Ok(p) ==> {
                let a = self.spec_auction(auction_id as int)->0;
                &&& (p is Some <==> a.bid is Some)
                &&& p matches Some(v) ==> v == a.bid->0.price
            },
    {
        if auction_id < self.market.auctions.len() as u128 {
            if let Some(a) = &self.market.auctions[auction_id as usize] {
                return Ok(
                    match &a.bid {
                        Some(b) => Some(b.price),
                        None => None,
                    },
                );
            }
        }
        Err(MarketError::AuctionNotFound)
    }
}

} // verus!
