use vstd::prelude::*;

use crate::bid::copy_origins;
use crate::{AccountId, Bid, FungibleTokenId, Origins};

verus! {

/// Nanoseconds in a second.
pub const NANOS_PER_SEC: u64 = 1_000_000_000;

/// A bid this close to an auction's end pushes the end to this long after the bid
/// (15 minutes); also the shortest auction.
pub const EXTENSION_DURATION: u64 = 15 * 60 * NANOS_PER_SEC;

/// The longest auction: 1000 days.
pub const MAX_DURATION: u64 = 1000 * 60 * 60 * 24 * NANOS_PER_SEC;

/// A time-boxed listing with one live bid at a time.
pub struct Auction {
    pub owner_id: AccountId,
    pub approval_id: u64,
    pub nft_contract_id: AccountId,
    pub token_id: String,
    pub bid: Option<Bid>,
    pub created_at: u64,
    pub ft_token_id: FungibleTokenId,
    pub minimal_step: u128,
    pub start_price: u128,
    pub buy_out_price: Option<u128>,
    pub start: u64,
    pub end: u64,
    pub origins: Origins,
}

/// What a reader of the market sees of an auction.
pub struct AuctionJson {
    pub owner_id: AccountId,
    pub nft_contract_id: AccountId,
    pub token_id: String,
    pub bid: Option<Bid>,
    pub created_at: u64,
    pub ft_token_id: AccountId,
    pub minimal_step: u128,
    pub start_price: u128,
    pub buy_out_price: Option<u128>,
    pub start: u64,
    pub end: u64,
}

impl Auction {
    /// The auction takes bids at `now`.
    pub open spec fn spec_in_progress(&self, now: u64) -> bool {
        self.start <= now < self.end
    }

    /// How much a new bid must add to the current one: the minimal step, and at least one
    /// unit, so that every accepted bid beats the one before.
    pub open spec fn spec_step(&self) -> u128 {
        if self.minimal_step == 0 {
            1
        } else {
            self.minimal_step
        }
    }

    /// How much a new bid must add to the current one.
    pub fn step(&self) -> (r: u128)
        ensures
            r == self.spec_step(),
    {
        if self.minimal_step == 0 {
            1
        } else {
            self.minimal_step
        }
    }

    /// The smallest bid the auction accepts next, or `None` when no amount is large enough.
    pub open spec fn spec_minimal_next_bid(&self) -> Option<u128> {
        match self.bid {
            Some(b) => if b.price + self.spec_step() <= u128::MAX {
                Some((b.price + self.spec_step()) as u128)
            } else {
                None
            },
            None => Some(self.start_price),
        }
    }

    /// `json` shows exactly this auction.
    pub open spec fn shown_by(&self, json: AuctionJson) -> bool {
        &&& json.owner_id == self.owner_id
        &&& json.nft_contract_id == self.nft_contract_id
        &&& json.token_id == self.token_id
        &&& (json.bid is Some <==> self.bid is Some)
        &&& (json.bid matches Some(b) ==> b.same_as(self.bid->0))
        &&& json.created_at == self.created_at
        &&& json.ft_token_id == self.ft_token_id
        &&& json.minimal_step == self.minimal_step
        &&& json.start_price == self.start_price
        &&& json.buy_out_price == self.buy_out_price
        &&& json.start == self.start
        &&& json.end == self.end
    }

    /// What a reader sees of this auction.
    pub fn to_json(&self) -> (r: AuctionJson)
        ensures
            self.shown_by(r),
    {
        AuctionJson {
            owner_id: self.owner_id.clone(),
            nft_contract_id: self.nft_contract_id.clone(),
            token_id: self.token_id.clone(),
            bid: match &self.bid {
                Some(b) => Some(b.copy()),
                None => None,
            },
            created_at: self.created_at,
            ft_token_id: self.ft_token_id.clone(),
            minimal_step: self.minimal_step,
            start_price: self.start_price,
            buy_out_price: self.buy_out_price,
            start: self.start,
            end: self.end,
        }
    }

    /// `other` holds the same values as this auction.
    pub open spec fn same_as(&self, other: Auction) -> bool {
        &&& self.owner_id == other.owner_id
        &&& self.approval_id == other.approval_id
        &&& self.nft_contract_id == other.nft_contract_id
        &&& self.token_id == other.token_id
        &&& (self.bid is Some <==> other.bid is Some)
        &&& (self.bid matches Some(b) ==> b.same_as(other.bid->0))
        &&& self.created_at == other.created_at
        &&& self.ft_token_id == other.ft_token_id
        &&& self.minimal_step == other.minimal_step
        &&& self.start_price == other.start_price
        &&& self.buy_out_price == other.buy_out_price
        &&& self.start == other.start
        &&& self.end == other.end
        &&& self.origins@ == other.origins@
    }

    /// A copy of the auction.
    pub fn copy(&self) -> (r: Auction)
        ensures
            r.same_as(*self),
    {
        Auction {
            owner_id: self.owner_id.clone(),
            approval_id: self.approval_id,
            nft_contract_id: self.nft_contract_id.clone(),
            token_id: self.token_id.clone(),
            bid: match &self.bid {
                Some(b) => Some(b.copy()),
                None => None,
            },
            created_at: self.created_at,
            ft_token_id: self.ft_token_id.clone(),
            minimal_step: self.minimal_step,
            start_price: self.start_price,
            buy_out_price: self.buy_out_price,
            start: self.start,
            end: self.end,
            origins: copy_origins(&self.origins),
        }
    }
}

} // verus!
