use vstd::prelude::*;

use crate::{AccountId, BidId, FungibleTokenId, Origins, TokenId};

verus! {

/// A priced, time-bounded offer to buy a listed item.
pub struct Bid {
    pub bid_id: BidId,
    pub nft_contract_id: AccountId,
    pub token_id: TokenId,
    pub owner_id: AccountId,
    pub fungible_token: FungibleTokenId,
    pub price: u128,
    pub start: u64,
    pub end: Option<u64>,
    pub origins: Origins,
}

impl Bid {
    /// The bid's validity window contains `now`: it started before `now` and,
    /// if it has an end, ends after `now`.
    pub open spec fn spec_in_limits(&self, now: u64) -> bool {
        &&& self.start < now
        &&& (self.end matches Some(end) ==> now < end)
    }

    /// Whether the bid's validity window contains `now`.
    pub fn in_limits(&self, now: u64) -> (r: bool)
        ensures
            r == self.spec_in_limits(now),
    {
        let res_start = self.start < now;
        let res_end = match self.end {
            Some(end) => now < end,
            None => true,
        };
        res_end && res_start
    }

    /// The bid is for the item `token` of the collection `contract`.
    pub open spec fn is_for(&self, contract: Seq<char>, token: Seq<char>) -> bool {
        self.nft_contract_id@ == contract && self.token_id@ == token
    }

    /// The bid's validity window has an end and `now` is at or past it.
    pub open spec fn is_expired(&self, now: u64) -> bool {
        self.end matches Some(end) && now >= end
    }

    /// `other` holds the same values as this bid.
    pub open spec fn same_as(&self, other: Bid) -> bool {
        &&& self.bid_id == other.bid_id
        &&& self.nft_contract_id == other.nft_contract_id
        &&& self.token_id == other.token_id
        &&& self.owner_id == other.owner_id
        &&& self.fungible_token == other.fungible_token
        &&& self.price == other.price
        &&& self.start == other.start
        &&& self.end == other.end
        &&& self.origins@ == other.origins@
    }

    /// A copy of the bid.
    pub fn copy(&self) -> (r: Bid)
        ensures
            r.same_as(*self),
    {
        Bid {
            bid_id: self.bid_id,
            nft_contract_id: self.nft_contract_id.clone(),
            token_id: self.token_id.clone(),
            owner_id: self.owner_id.clone(),
            fungible_token: self.fungible_token.clone(),
            price: self.price,
            start: self.start,
            end: self.end,
            origins: copy_origins(&self.origins),
        }
    }
}

/// A copy of a referral table.
pub fn copy_origins(origins: &Origins) -> (r: Origins)
    ensures
        r@ == origins@,
{
    let mut r: Origins = Vec::new();
    let mut i: usize = 0;
    while i < origins.len()
        invariant
            i <= origins@.len(),
            r@ == origins@.subrange(0, i as int),
        decreases origins@.len() - i,
    {
        r.push((origins[i].0.clone(), origins[i].1));
        i = i + 1;
        assert(r@ =~= origins@.subrange(0, i as int));
    }
    assert(r@ =~= origins@);
    r
}

} // verus!
