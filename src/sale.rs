use vstd::prelude::*;

use crate::bid::copy_origins;
use crate::{AccountId, FungibleTokenId, Origins, TokenId};

verus! {

/// Price asked per currency.
pub type SaleConditions = Vec<(FungibleTokenId, u128)>;

/// An offer listing: the item stays listed while buyers bid on it.
pub struct Sale {
    pub owner_id: AccountId,
    pub approval_id: u64,
    pub nft_contract_id: AccountId,
    pub token_id: TokenId,
    pub sale_conditions: SaleConditions,
    pub created_at: u64,
    pub token_type: Option<String>,
    pub start: Option<u64>,
    pub end: Option<u64>,
    pub origins: Origins,
}

/// What a reader of the market sees of a sale.
pub struct SaleJson {
    pub owner_id: AccountId,
    pub nft_contract_id: AccountId,
    pub token_id: String,
    pub sale_conditions: SaleConditions,
    pub created_at: u64,
    pub token_type: Option<String>,
    pub start: Option<u64>,
    pub end: Option<u64>,
    pub origins: Origins,
}

/// A sale of copies of a token series.
pub struct SeriesSale {
    pub owner_id: AccountId,
    pub nft_contract_id: AccountId,
    pub series_id: String,
    pub sale_conditions: SaleConditions,
    pub created_at: u64,
    pub copies: u64,
}

/// The item that a purchase is for.
pub struct PurchaseArgs {
    pub nft_contract_id: AccountId,
    pub token_id: TokenId,
}

/// The key of a sale: its collection and its item.
pub open spec fn sale_key() -> spec_fn(Sale) -> (Seq<char>, Seq<char>) {
    |s: Sale| (s.nft_contract_id@, s.token_id@)
}

pub open spec fn sale_itself() -> spec_fn(Sale) -> Sale {
    |s: Sale| s
}

impl Sale {
    /// The sale's window contains `now` (a missing bound does not limit it).
    pub open spec fn spec_in_limits(&self, now: u64) -> bool {
        &&& (self.start matches Some(start) ==> start < now)
        &&& (self.end matches Some(end) ==> now < end)
    }

    /// Whether the sale's window contains `now`.
    pub fn in_limits(&self, now: u64) -> (r: bool)
        ensures
            r == self.spec_in_limits(now),
    {
        let mut res = true;
        if let Some(start) = self.start {
            res = res && start < now;
        }
        if let Some(end) = self.end {
            res = res && now < end;
        }
        res
    }

    /// Moves the end of a sale that has one `time` later; a sale without an end is left
    /// as it is. Returns whether the sale was extended.
    pub fn extend(&mut self, time: u64) -> (r: bool)
        requires
            old(self).end matches Some(end) ==> end + time <= u64::MAX,
        ensures
            r == old(self).end is Some,
            final(self).end == match old(self).end {
                Some(end) => Some((end + time) as u64),
                None => None::<u64>,
            },
            final(self).owner_id == old(self).owner_id,
            final(self).approval_id == old(self).approval_id,
            final(self).nft_contract_id == old(self).nft_contract_id,
            final(self).token_id == old(self).token_id,
            final(self).sale_conditions == old(self).sale_conditions,
            final(self).created_at == old(self).created_at,
            final(self).token_type == old(self).token_type,
            final(self).start == old(self).start,
            final(self).origins == old(self).origins,
    {
        if let Some(end) = self.end {
            self.end = Some(end + time);
            true
        } else {
            false
        }
    }

    /// `json` shows exactly this sale.
    pub open spec fn shown_by(&self, json: SaleJson) -> bool {
        &&& json.owner_id == self.owner_id
        &&& json.nft_contract_id == self.nft_contract_id
        &&& json.token_id == self.token_id
        &&& json.sale_conditions@ == self.sale_conditions@
        &&& json.created_at == self.created_at
        &&& json.token_type == self.token_type
        &&& json.start == self.start
        &&& json.end == self.end
        &&& json.origins@ == self.origins@
    }

    /// What a reader sees of this sale.
    pub fn to_json(&self) -> (r: SaleJson)
        ensures
            self.shown_by(r),
    {
        SaleJson {
            owner_id: self.owner_id.clone(),
            nft_contract_id: self.nft_contract_id.clone(),
            token_id: self.token_id.clone(),
            sale_conditions: copy_conditions(&self.sale_conditions),
            created_at: self.created_at,
            token_type: match &self.token_type {
                Some(t) => Some(t.clone()),
                None => None,
            },
            start: self.start,
            end: self.end,
            origins: copy_origins(&self.origins),
        }
    }
}

/// A copy of a price table.
pub fn copy_conditions(c: &SaleConditions) -> (r: SaleConditions)
    ensures
        r@ == c@,
{
    let mut r: SaleConditions = Vec::new();
    let mut i: usize = 0;
    while i < c.len()
        invariant
            i <= c@.len(),
            r@ == c@.subrange(0, i as int),
        decreases c@.len() - i,
    {
        r.push((c[i].0.clone(), c[i].1));
        i = i + 1;
        assert(r@ =~= c@.subrange(0, i as int));
    }
    assert(r@ =~= c@);
    r
}

} // verus!
