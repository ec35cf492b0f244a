use vstd::prelude::*;

use crate::bids::{opt_origins_seq, opt_origins_total, placed_bid};
use crate::fee::{calculate_origins, calculate_price_with_fees, spec_price_with_fees};
use crate::sale::{sale_itself, sale_key, SaleConditions};
use crate::settlement::{Fees, PendingPurchase};
use crate::table::{lemma_table_index, lemma_table_remove, has_key};
use crate::{AccountId, Bid, BidId, FungibleTokenId, Market, MarketError, Origins, TokenId, MAX_ORIGINS, PROTOCOL_FEE};

verus! {

/// The price a table asks in currency `ft`: its first entry for `ft`.
pub open spec fn spec_price(conds: Seq<(FungibleTokenId, u128)>, ft: Seq<char>) -> Option<u128>
    decreases conds.len(),
{
    if conds.len() == 0 {
        None
    } else if conds[0].0@ == ft {
        Some(conds[0].1)
    } else {
        spec_price(conds.drop_first(), ft)
    }
}

proof fn lemma_price_update(
    conds: Seq<(FungibleTokenId, u128)>,
    j: int,
    e: (FungibleTokenId, u128),
    f: Seq<char>,
)
    requires
        0 <= j < conds.len(),
        e.0@ == conds[j].0@,
        forall|k: int| 0 <= k < j ==> #[trigger] conds[k].0@ != e.0@,
    ensures
        spec_price(conds.update(j, e), f) == if f == e.0@ {
            Some(e.1)
        } else {
            spec_price(conds, f)
        },
    decreases j,
{
    let t = conds.update(j, e);
    if j > 0 {
        assert(t.drop_first() =~= conds.drop_first().update(j - 1, e));
        assert forall|k: int| 0 <= k < j - 1 implies #[trigger] conds.drop_first()[k].0@ != e.0@ by {
            assert(conds[k + 1].0@ != e.0@);
        }
        lemma_price_update(conds.drop_first(), j - 1, e, f);
        assert(conds[0].0@ != e.0@);
        assert(t[0] == conds[0]);
    } else {
        assert(t.drop_first() =~= conds.drop_first());
        assert(t[0] == e);
    }
}

proof fn lemma_price_push(conds: Seq<(FungibleTokenId, u128)>, e: (FungibleTokenId, u128), f: Seq<char>)
    requires
        spec_price(conds, e.0@) is None,
    ensures
        spec_price(conds.push(e), f) == if f == e.0@ {
            Some(e.1)
        } else {
            spec_price(conds, f)
        },
    decreases conds.len(),
{
    if conds.len() > 0 {
        assert(conds.push(e).drop_first() =~= conds.drop_first().push(e));
        assert(conds.push(e)[0] == conds[0]);
        lemma_price_push(conds.drop_first(), e, f);
    } else {
        assert(conds.push(e).drop_first() =~= Seq::<(FungibleTokenId, u128)>::empty());
        assert(conds.push(e)[0] == e);
        assert(spec_price(Seq::<(FungibleTokenId, u128)>::empty(), f) is None);
    }
}

/// Bid `a` is preferred to bid `b`: a higher price, then an earlier start, then an earlier id.
pub open spec fn outranks(a: Bid, b: Bid) -> bool {
    ||| a.price > b.price
    ||| (a.price == b.price && a.start < b.start)
    ||| (a.price == b.price && a.start == b.start && a.bid_id < b.bid_id)
}

/// The sales that `owner` has listed.
pub open spec fn owned_by(owner: Seq<char>) -> spec_fn(crate::Sale) -> bool {
    |s: crate::Sale| s.owner_id@ == owner
}

/// `needle` occurs in `hay`.
pub open spec fn contains_str(hay: Seq<char>, needle: Seq<char>) -> bool {
    exists|i: int| 0 <= i <= hay.len() - needle.len() && #[trigger] hay.subrange(i, i + needle.len()) == needle
}

/// Whether `needle` occurs in `hay`.
pub fn str_contains(hay: &String, needle: &String) -> (r: bool)
    ensures
        r == contains_str(hay@, needle@),
{
    let h = hay.as_str();
    let n = needle.as_str();
    let hl = h.unicode_len();
    let nl = n.unicode_len();
    if nl > hl {
        return false;
    }
    if nl == 0 {
        assert(contains_str(hay@, needle@)) by {
            assert(hay@.subrange(0, 0 + needle@.len() as int) =~= needle@);
        }
        return true;
    }
    let mut i: usize = 0;
    while i <= hl - nl
        invariant
            hl == hay@.len(),
            nl == needle@.len(),
            h@ == hay@,
            n@ == needle@,
            0 < nl <= hl,
            i <= hl - nl + 1,
            forall|k: int| 0 <= k < i ==> #[trigger] hay@.subrange(k, k + nl) != needle@,
        decreases hl - nl + 1 - i,
    {
        let mut j: usize = 0;
        let mut same = true;
        while j < nl
            invariant
                hl == hay@.len(),
                nl == needle@.len(),
                h@ == hay@,
                n@ == needle@,
                i + nl <= hl,
                j <= nl,
                same ==> forall|m: int| 0 <= m < j ==> hay@[i + m] == needle@[m],
                !same ==> hay@.subrange(i as int, i + nl) != needle@,
            decreases nl - j,
        {
            if same && h.get_char(i + j) != n.get_char(j) {
                same = false;
                assert(hay@.subrange(i as int, i + nl)[j as int] != needle@[j as int]);
            }
            j = j + 1;
        }
        if same {
            assert(hay@.subrange(i as int, i + nl) =~= needle@);
            return true;
        }
        i = i + 1;
    }
    proof {
        assert forall|k: int| 0 <= k <= hay@.len() - needle@.len() implies #[trigger] hay@.subrange(
            k,
            k + needle@.len(),
        ) != needle@ by {
            assert(k < i);
        }
    }
    false
}

/// What `offer` did.
pub enum OfferOutcome {
    /// The offer met the asking price with fees and was backed by escrow: the sale is settling.
    Purchased(PendingPurchase),
    /// The offer was recorded as a bid; a bid of the same buyer on the item that it replaced.
    BidPlaced(BidId, Option<Bid>),
}

/// Position of the first entry for `ft` in a price table.
fn find_price(conds: &SaleConditions, ft: &FungibleTokenId) -> (r: Option<usize>)
    ensures
        r matches Some(i) ==> i < conds@.len() && spec_price(conds@, ft@) == Some(conds@[i as int].1)
            && conds@[i as int].0@ == ft@ && forall|k: int| 0 <= k < i ==> #[trigger] conds@[k].0@ != ft@,
        r is None ==> spec_price(conds@, ft@) is None,
{
    let mut i: usize = 0;
    assert(conds@.subrange(0, conds@.len() as int) =~= conds@);
    while i < conds.len()
        invariant
            i <= conds@.len(),
            spec_price(conds@, ft@) == spec_price(conds@.subrange(i as int, conds@.len() as int), ft@),
            forall|k: int| 0 <= k < i ==> #[trigger] conds@[k].0@ != ft@,
        decreases conds@.len() - i,
    {
        let ghost rest = conds@.subrange(i as int, conds@.len() as int);
        assert(rest.drop_first() =~= conds@.subrange(i + 1, conds@.len() as int));
        if conds[i].0 == *ft {
            return Some(i);
        }
        i = i + 1;
    }
    None
}

impl Market {
    /// The item `token` of `contract` has a sale.
    pub open spec fn has_sale(&self, contract: Seq<char>, token: Seq<char>) -> bool {
        self.sales_view().contains_key((contract, token))
    }

    /// Bid `i` may be accepted at `now` for a sale in currency `ft`: it is live, for this item
    /// and currency, inside its window, and backed by enough escrow.
    pub open spec fn eligible(
        &self,
        i: int,
        contract: Seq<char>,
        token: Seq<char>,
        ft: Seq<char>,
        now: u64,
    ) -> bool {
        &&& 0 <= i < self.market.bids@.len()
        &&& self.market.bids@[i] is Some
        &&& self.market.bids@[i]->0.is_for(contract, token)
        &&& self.market.bids@[i]->0.fungible_token@ == ft
        &&& self.market.bids@[i]->0.spec_in_limits(now)
        &&& self.spec_is_active(self.market.bids@[i]->0, ft)
    }

    /// The position of the sale of the item `token_id` of `nft_contract_id`.
    pub fn find_sale(&self, nft_contract_id: &AccountId, token_id: &TokenId) -> (r: Option<usize>)
        requires
            self.wf(),
        ensures
            r matches Some(i) ==> i < self.market.sales@.len() && sale_key()(
                self.market.sales@[i as int],
            ) == (nft_contract_id@, token_id@) && self.has_sale(nft_contract_id@, token_id@)
                && self.sales_view()[(nft_contract_id@, token_id@)] == self.market.sales@[i as int],
            r is None <==> !self.has_sale(nft_contract_id@, token_id@),
    {
        let mut i: usize = 0;
        while i < self.market.sales.len()
            invariant
                self.wf(),
                i <= self.market.sales@.len(),
                forall|j: int|
                    0 <= j < i ==> sale_key()(#[trigger] self.market.sales@[j]) != (
                        nft_contract_id@,
                        token_id@,
                    ),
            decreases self.market.sales@.len() - i,
        {
            if self.market.sales[i].nft_contract_id == *nft_contract_id
                && self.market.sales[i].token_id == *token_id {
                proof {
                    lemma_table_index(self.market.sales@, sale_key(), sale_itself(), i as int);
                }
                return Some(i);
            }
            i = i + 1;
        }
        proof {
            if self.has_sale(nft_contract_id@, token_id@) {
                assert(has_key(self.market.sales@, sale_key(), (nft_contract_id@, token_id@)));
            }
        }
        None
    }

    /// Takes the sale of an item out of the sale table.
    pub fn internal_remove_sale(&mut self, nft_contract_id: &AccountId, token_id: &TokenId) -> (r:
        Result<crate::Sale, MarketError>)
        requires
            old(self).wf(),
        ensures
            final(self).wf(),
            r is Ok <==> old(self).has_sale(nft_contract_id@, token_id@),
            r is Err ==> r == Err::<crate::Sale, MarketError>(MarketError::SaleNotFound)
                && *final(self) == *old(self),
            r matches Ok(s) ==> {
                &&& s == old(self).sales_view()[(nft_contract_id@, token_id@)]
                &&& final(self).sales_view() == old(self).sales_view().remove(
                    (nft_contract_id@, token_id@),
                )
                &&& final(self).market.bid_accounts == old(self).market.bid_accounts
                &&& final(self).same_config(old(self))
                &&& final(self).same_bids(old(self))
                &&& final(self).same_auctions(old(self))
            },
    {
        match self.find_sale(nft_contract_id, token_id) {
            None => Err(MarketError::SaleNotFound),
            Some(i) => {
                proof {
                    lemma_table_remove(self.market.sales@, sale_key(), sale_itself(), i as int);
                }
                let sale = self.market.sales.remove(i);
                Ok(sale)
            },
        }
    }

    /// The escrow balance of `owner_id` in `ft`, if there is one.
    pub fn get_bid_balance(&self, owner_id: &AccountId, ft: &AccountId) -> (r: Option<u128>)
        requires
            self.wf(),
        ensures
            r == self.escrow().get((owner_id@, ft@)),
    {
        self.market.bid_accounts.get(owner_id, ft)
    }

    /// Takes the sale of an item off the table and debits the buyer's escrow by `price`; the
    /// returned record carries what the asset registry needs for the transfer.
    pub fn process_purchase(
        &mut self,
        nft_contract_id: AccountId,
        token_id: TokenId,
        ft_token_id: AccountId,
        price: u128,
        buyer_id: AccountId,
        origins: Origins,
    ) -> (r: Result<PendingPurchase, MarketError>)
        requires
            old(self).wf(),
        ensures
            final(self).wf(),
            ({
                let listed = old(self).has_sale(nft_contract_id@, token_id@);
                let funded = old(self).escrow().contains_key((buyer_id@, ft_token_id@));
                &&& !listed ==> r == Err::<PendingPurchase, MarketError>(MarketError::SaleNotFound)
                &&& listed && !funded ==> r == Err::<PendingPurchase, MarketError>(
                    MarketError::BidAccountNotFound,
                )
                &&& listed && funded && price > old(self).escrow()[(buyer_id@, ft_token_id@)] ==> r
                    == Err::<PendingPurchase, MarketError>(MarketError::NotEnoughFunds)
                &&& r is Ok <==> listed && funded && price <= old(self).escrow()[(
                    buyer_id@,
                    ft_token_id@,
                )]
            }),
            r is Err ==> *final(self) == *old(self),
            r matches Ok(p) ==> {
                &&& p.sale == old(self).sales_view()[(nft_contract_id@, token_id@)]
                &&& p.buyer_id == buyer_id
                &&& p.ft_token_id == ft_token_id
                &&& p.price == price
                &&& p.fees.buyer@ == origins@.push((old(self).market.owner_id, PROTOCOL_FEE as u32))
                &&& p.fees.seller@ == p.sale.origins@.push(
                    (old(self).market.owner_id, PROTOCOL_FEE as u32),
                )
                &&& final(self).sales_view() == old(self).sales_view().remove(
                    (nft_contract_id@, token_id@),
                )
                &&& final(self).escrow() == old(self).escrow().insert(
                    (buyer_id@, ft_token_id@),
                    (old(self).escrow()[(buyer_id@, ft_token_id@)] - price) as u128,
                )
                &&& final(self).same_config(old(self))
                &&& final(self).same_bids(old(self))
                &&& final(self).same_auctions(old(self))
            },
    {
        if self.find_sale(&nft_contract_id, &token_id).is_none() {
            return Err(MarketError::SaleNotFound);
        }
        match self.market.bid_accounts.get(&buyer_id, &ft_token_id) {
            None => return Err(MarketError::BidAccountNotFound),
            Some(balance) => {
                if balance < price {
                    return Err(MarketError::NotEnoughFunds);
                }
            },
        }
        let ghost before = *self;
        let debited = self.market.bid_accounts.debit(&buyer_id, &ft_token_id, price);
        assert(debited is Ok);
        let ghost mid = *self;
        let sale = match self.internal_remove_sale(&nft_contract_id, &token_id) {
            Ok(s) => s,
            Err(e) => {
                assert(false);
                return Err(e);
            },
        };
        assert(mid.sales_view() == before.sales_view());
        let buyer = self.with_protocol_fee(&origins);
        let seller = self.with_protocol_fee(&sale.origins);
        Ok(
            PendingPurchase {
                sale,
                buyer_id,
                ft_token_id,
                price,
                fees: Fees { buyer, seller },
            },
        )
    }

    /// The bid to accept for a sale in currency `ft` at `now`: among the eligible bids, the one
    /// no other eligible bid outranks.
    fn select_best(&self, nft_contract_id: &AccountId, token_id: &TokenId, ft_token_id: &FungibleTokenId, now: u64) -> (r:
        Option<usize>)
        requires
            self.wf(),
        ensures
            r matches Some(k) ==> self.eligible(
                k as int,
                nft_contract_id@,
                token_id@,
                ft_token_id@,
                now,
            ) && forall|j: int|
                #![trigger self.market.bids@[j]]
                self.eligible(j, nft_contract_id@, token_id@, ft_token_id@, now) ==> !outranks(
                    self.market.bids@[j]->0,
                    self.market.bids@[k as int]->0,
                ),
            r is None <==> forall|j: int|
                !#[trigger] self.eligible(j, nft_contract_id@, token_id@, ft_token_id@, now),
    {
        let mut best: Option<usize> = None;
        let mut i: usize = 0;
        while i < self.market.bids.len()
            invariant
                self.wf(),
                i <= self.market.bids@.len(),
                best matches Some(k) ==> k < i && self.eligible(
                    k as int,
                    nft_contract_id@,
                    token_id@,
                    ft_token_id@,
                    now,
                ) && forall|j: int|
                    #![trigger self.market.bids@[j]]
                    0 <= j < i && self.eligible(j, nft_contract_id@, token_id@, ft_token_id@, now)
                        ==> !outranks(self.market.bids@[j]->0, self.market.bids@[k as int]->0),
                best is None ==> forall|j: int|
                    0 <= j < i ==> !#[trigger] self.eligible(
                        j,
                        nft_contract_id@,
                        token_id@,
                        ft_token_id@,
                        now,
                    ),
            decreases self.market.bids@.len() - i,
        {
            if let Some(b) = &self.market.bids[i] {
                if b.nft_contract_id == *nft_contract_id && b.token_id == *token_id
                    && b.fungible_token == *ft_token_id && b.in_limits(now) && self.is_active(
                    b,
                    ft_token_id,
                ) {
                    let better = match best {
                        None => true,
                        Some(k) => match &self.market.bids[k] {
                            Some(c) => b.price > c.price || (b.price == c.price && b.start
                                < c.start),
                            None => true,
                        },
                    };
                    if better {
                        best = Some(i);
                    }
                }
            }
            proof {
                if let Some(k) = best {
                    assert forall|j: int|
                        #![trigger self.market.bids@[j]]
                        0 <= j < i + 1 && self.eligible(
                            j,
                            nft_contract_id@,
                            token_id@,
                            ft_token_id@,
                            now,
                        ) implies !outranks(
                        self.market.bids@[j]->0,
                        self.market.bids@[k as int]->0,
                    ) by {
                        assert(self.market.bids@[j]->0.bid_id == j);
                        assert(self.market.bids@[k as int]->0.bid_id == k);
                    }
                }
            }
            i = i + 1;
        }
        proof {
            if best is None {
                assert forall|j: int|
                    !#[trigger] self.eligible(j, nft_contract_id@, token_id@, ft_token_id@, now) by {
                    if 0 <= j < self.market.bids@.len() {
                    }
                }
            }
        }
        best
    }

    /// The sale's owner `caller` accepts the best eligible bid in currency `ft_token_id` at
    /// `now`: the bid leaves the ledger, the sale leaves the table, and the bidder's escrow is
    /// debited by the bid's price.
    pub fn accept_bid(
        &mut self,
        nft_contract_id: AccountId,
        token_id: TokenId,
        ft_token_id: AccountId,
        caller: AccountId,
        now: u64,
    ) -> (r: Result<PendingPurchase, MarketError>)
        requires
            old(self).wf(),
        ensures
            final(self).wf(),
            ({
                let key = (nft_contract_id@, token_id@);
                let listed = old(self).has_sale(nft_contract_id@, token_id@);
                let sale = old(self).sales_view()[key];
                let any = exists|j: int|
                    old(self).eligible(j, nft_contract_id@, token_id@, ft_token_id@, now);
                &&& !listed ==> r == Err::<PendingPurchase, MarketError>(MarketError::SaleNotFound)
                &&& listed && sale.owner_id@ != caller@ ==> r == Err::<
                    PendingPurchase,
                    MarketError,
                >(MarketError::NotOwner)
                &&& listed && sale.owner_id@ == caller@ && !sale.spec_in_limits(now) ==> r == Err::<
                    PendingPurchase,
                    MarketError,
                >(MarketError::SaleNotInProgress)
                &&& listed && sale.owner_id@ == caller@ && sale.spec_in_limits(now) && !any ==> r
                    == Err::<PendingPurchase, MarketError>(MarketError::NoActiveBids)
                &&& r is Ok <==> listed && sale.owner_id@ == caller@ && sale.spec_in_limits(now)
                    && any
            }),
            r is Err ==> *final(self) == *old(self),
            r matches Ok(p) ==> exists|k: int|
                #![trigger old(self).market.bids@[k]]
                {
                    let b = old(self).market.bids@[k]->0;
                    &&& old(self).eligible(k, nft_contract_id@, token_id@, ft_token_id@, now)
                    &&& forall|j: int|
                        #![trigger old(self).market.bids@[j]]
                        old(self).eligible(j, nft_contract_id@, token_id@, ft_token_id@, now)
                            ==> !outranks(old(self).market.bids@[j]->0, b)
                    &&& p.buyer_id == b.owner_id
                    &&& p.price == b.price
                    &&& p.ft_token_id == ft_token_id
                    &&& p.sale == old(self).sales_view()[(nft_contract_id@, token_id@)]
                    &&& p.fees.buyer@ == b.origins@.push(
                        (old(self).market.owner_id, PROTOCOL_FEE as u32),
                    )
                    &&& p.fees.seller@ == p.sale.origins@.push(
                        (old(self).market.owner_id, PROTOCOL_FEE as u32),
                    )
                    &&& final(self).market.bids@ == old(self).market.bids@.update(k, None)
                    &&& final(self).sales_view() == old(self).sales_view().remove(
                        (nft_contract_id@, token_id@),
                    )
                    &&& final(self).escrow() == old(self).escrow().insert(
                        (b.owner_id@, ft_token_id@),
                        (old(self).escrow()[(b.owner_id@, ft_token_id@)] - b.price) as u128,
                    )
                    &&& final(self).same_config(old(self))
                    &&& final(self).same_auctions(old(self))
                },
    {
        let i = match self.find_sale(&nft_contract_id, &token_id) {
            Some(i) => i,
            None => return Err(MarketError::SaleNotFound),
        };
        if self.market.sales[i].owner_id != caller {
            return Err(MarketError::NotOwner);
        }
        if !self.market.sales[i].in_limits(now) {
            return Err(MarketError::SaleNotInProgress);
        }
        let k = match self.select_best(&nft_contract_id, &token_id, &ft_token_id, now) {
            Some(k) => k,
            None => return Err(MarketError::NoActiveBids),
        };
        let bid = match &self.market.bids[k] {
            Some(b) => b.copy(),
            None => {
                assert(false);
                return Err(MarketError::NoActiveBids);
            },
        };
        let ghost before = *self;
        proof {
            crate::bids::lemma_clear_keeps_invariants(self.market.bids@, k as int);
        }
        self.market.bids.set(k, None);
        assert(self.escrow() == before.escrow());
        assert(self.sales_view() == before.sales_view());
        let result = self.process_purchase(
            nft_contract_id,
            token_id,
            ft_token_id,
            bid.price,
            bid.owner_id,
            bid.origins,
        );
        assert(result is Ok);
        proof {
            let kk = k as int;
            assert(before.market.bids@[kk]->0.same_as(bid));
        }
        result
    }

    /// `buyer_id` offers `offered_price` in `ft_token_id` for an item at `now`. When the item
    /// is on sale at a price whose amount with fees is exactly the offer, and the buyer's
    /// escrow covers it, the item is bought at once; otherwise the offer becomes a bid valid
    /// from `start` (default `now`) for `duration`, if given.
    pub fn offer(
        &mut self,
        nft_contract_id: AccountId,
        token_id: TokenId,
        ft_token_id: AccountId,
        offered_price: u128,
        start: Option<u64>,
        duration: Option<u64>,
        origins: Option<Origins>,
        buyer_id: AccountId,
        now: u64,
    ) -> (r: Result<OfferOutcome, MarketError>)
        requires
            old(self).wf(),
        ensures
            final(self).wf(),
            r is Err ==> *final(self) == *old(self),
            ({
                let from = match start {
                    Some(s) => s,
                    None => now,
                };
                let overflow = duration matches Some(d) && from + d > u64::MAX;
                let key = (nft_contract_id@, token_id@);
                let listed = old(self).has_sale(nft_contract_id@, token_id@);
                let sale = old(self).sales_view()[key];
                let asked = spec_price(sale.sale_conditions@, ft_token_id@);
                let buys = listed && sale.owner_id@ != buyer_id@ && asked is Some
                    && spec_price_with_fees(asked->0 as int, opt_origins_total(origins))
                    == offered_price && old(self).market.bid_accounts.balance_or_zero(
                    buyer_id@,
                    ft_token_id@,
                ) >= offered_price;
                let valid = offered_price > 0 && !overflow && opt_origins_total(origins)
                    < MAX_ORIGINS;
                &&& offered_price == 0 ==> r == Err::<OfferOutcome, MarketError>(
                    MarketError::OfferedPriceZero,
                )
                &&& offered_price > 0 && overflow ==> r == Err::<OfferOutcome, MarketError>(
                    MarketError::TimestampOverflow,
                )
                &&& offered_price > 0 && !overflow && opt_origins_total(origins) >= MAX_ORIGINS
                    ==> r == Err::<OfferOutcome, MarketError>(MarketError::MaxOriginsExceeded)
                &&& valid && listed && sale.owner_id@ == buyer_id@ ==> r == Err::<
                    OfferOutcome,
                    MarketError,
                >(MarketError::OwnListing)
                &&& valid && listed && sale.owner_id@ != buyer_id@ && asked is None ==> r == Err::<
                    OfferOutcome,
                    MarketError,
                >(MarketError::PriceNotSet)
                &&& valid && buys ==> (r matches Ok(OfferOutcome::Purchased(p)) && p.price
                    == offered_price && p.buyer_id == buyer_id && p.ft_token_id == ft_token_id
                    && p.sale == sale && final(self).sales_view() == old(self).sales_view().remove(
                    key,
                ) && final(self).escrow() == old(self).escrow().insert(
                    (buyer_id@, ft_token_id@),
                    (old(self).escrow()[(buyer_id@, ft_token_id@)] - offered_price) as u128,
                ) && final(self).same_bids(old(self)) && final(self).same_auctions(old(self)))
                &&& valid && !buys && (!listed || (sale.owner_id@ != buyer_id@ && asked is Some))
                    ==> {
                    &&& !old(self).supports(ft_token_id@) ==> r == Err::<OfferOutcome, MarketError>(
                        MarketError::TokenNotSupported,
                    )
                    &&& old(self).supports(ft_token_id@) ==> (r matches Ok(
                        OfferOutcome::BidPlaced(id, replaced),
                    ) && placed_bid(
                        *old(self),
                        *final(self),
                        id,
                        replaced,
                        nft_contract_id,
                        token_id,
                        offered_price,
                        ft_token_id,
                        buyer_id,
                        from,
                        match duration {
                            Some(d) => Some((from + d) as u64),
                            None => None::<u64>,
                        },
                        origins,
                    ))
                }
            }),
    {
        if offered_price == 0 {
            return Err(MarketError::OfferedPriceZero);
        }
        let from = match start {
            Some(s) => s,
            None => now,
        };
        let end = match duration {
            Some(d) => match from.checked_add(d) {
                Some(e) => Some(e),
                None => return Err(MarketError::TimestampOverflow),
            },
            None => None,
        };
        let total = match &origins {
            Some(o) => calculate_origins(o),
            None => 0,
        };
        if total >= MAX_ORIGINS {
            return Err(MarketError::MaxOriginsExceeded);
        }
        if let Some(i) = self.find_sale(&nft_contract_id, &token_id) {
            if self.market.sales[i].owner_id == buyer_id {
                return Err(MarketError::OwnListing);
            }
            let price = match find_price(&self.market.sales[i].sale_conditions, &ft_token_id) {
                Some(j) => self.market.sales[i].sale_conditions[j].1,
                None => return Err(MarketError::PriceNotSet),
            };
            let balance = match self.market.bid_accounts.get(&buyer_id, &ft_token_id) {
                Some(b) => b,
                None => 0,
            };
            let with_fees = calculate_price_with_fees(price, origins.as_ref());
            if with_fees == Some(offered_price) && balance >= offered_price {
                let purchase = self.process_purchase(
                    nft_contract_id,
                    token_id,
                    ft_token_id,
                    offered_price,
                    buyer_id,
                    match origins {
                        Some(o) => o,
                        None => Vec::new(),
                    },
                );
                return match purchase {
                    Ok(p) => Ok(OfferOutcome::Purchased(p)),
                    Err(e) => Err(e),
                };
            }
        }
        match self.add_bid(
            nft_contract_id,
            token_id,
            offered_price,
            ft_token_id,
            buyer_id,
            from,
            end,
            origins,
        ) {
            Ok((id, replaced)) => Ok(OfferOutcome::BidPlaced(id, replaced)),
            Err(e) => Err(e),
        }
    }

    /// Number of sales that `owner` has listed.
    pub open spec fn owner_sales_count(&self, owner: Seq<char>) -> nat {
        self.market.sales@.filter(owned_by(owner)).len()
    }

    /// Storage rent that `owner` has paid.
    pub open spec fn storage_paid(&self, owner: Seq<char>) -> u128 {
        self.market.storage_deposits.balance_or_zero(owner, crate::market::native_token_name())
    }

    /// Number of sales that `owner_id` has listed.
    pub fn count_sales_by_owner(&self, owner_id: &AccountId) -> (r: usize)
        ensures
            r == self.owner_sales_count(owner_id@),
    {
        let ghost sales = self.market.sales@;
        let ghost pred = owned_by(owner_id@);
        let mut count: usize = 0;
        let mut i: usize = 0;
        assert(sales.subrange(0, 0) =~= Seq::<crate::Sale>::empty());
        while i < self.market.sales.len()
            invariant
                sales == self.market.sales@,
                pred == owned_by(owner_id@),
                i <= sales.len(),
                count == sales.subrange(0, i as int).filter(pred).len(),
                count <= i,
            decreases sales.len() - i,
        {
            proof {
                assert(sales.subrange(0, i + 1) =~= sales.subrange(0, i as int).push(sales[i as int]));
                sales.subrange(0, i as int).lemma_filter_push(sales[i as int], pred);
            }
            if self.market.sales[i].owner_id == *owner_id {
                count = count + 1;
            }
            i = i + 1;
        }
        assert(sales.subrange(0, i as int) =~= sales);
        count
    }

    /// Storage rent that `owner_id` has paid.
    pub(crate) fn get_storage_paid(&self, owner_id: &AccountId) -> (r: u128)
        requires
            self.wf(),
        ensures
            r == self.storage_paid(owner_id@),
    {
        match self.market.storage_deposits.get(owner_id, &crate::market::native_token()) {
            Some(b) => b,
            None => 0,
        }
    }

    /// Every currency of a price table is accepted by the market.
    pub open spec fn accepts_all(&self, conds: Seq<(FungibleTokenId, u128)>) -> bool {
        forall|i: int| 0 <= i < conds.len() ==> self.supports(#[trigger] conds[i].0@)
    }

    /// `start_sale` accepts these arguments.
    pub open spec fn can_start_sale(
        &self,
        args: crate::SaleArgs,
        token_id: TokenId,
        owner_id: AccountId,
        nft_contract_id: AccountId,
    ) -> bool {
        &&& self.accepts_all(args.sale_conditions@)
        &&& opt_origins_total(args.origins) < MAX_ORIGINS
        &&& self.storage_paid(owner_id@) > self.owner_sales_count(owner_id@) * crate::STORAGE_PER_SALE
        &&& (args.token_type matches Some(t) ==> contains_str(token_id@, t@))
        &&& !self.has_sale(nft_contract_id@, token_id@)
        &&& !self.has_auction(nft_contract_id@, token_id@)
    }

    /// Lists an item for offers on behalf of `owner_id`, from `args.start` (default `now`).
    pub fn start_sale(
        &mut self,
        args: crate::SaleArgs,
        token_id: TokenId,
        owner_id: AccountId,
        approval_id: u64,
        nft_contract_id: AccountId,
        now: u64,
    ) -> (r: Result<crate::SaleJson, MarketError>)
        requires
            old(self).wf(),
        ensures
            final(self).wf(),
            r is Err ==> *final(self) == *old(self),
            ({
                let supported = old(self).accepts_all(args.sale_conditions@);
                let capped = opt_origins_total(args.origins) < MAX_ORIGINS;
                let rented = old(self).storage_paid(owner_id@) > old(self).owner_sales_count(
                    owner_id@,
                ) * crate::STORAGE_PER_SALE;
                let typed = args.token_type matches Some(t) ==> contains_str(token_id@, t@);
                let free = !old(self).has_sale(nft_contract_id@, token_id@) && !old(self).has_auction(
                    nft_contract_id@,
                    token_id@,
                );
                &&& !supported ==> r == Err::<crate::SaleJson, MarketError>(
                    MarketError::TokenNotSupported,
                )
                &&& supported && !capped ==> r == Err::<crate::SaleJson, MarketError>(
                    MarketError::MaxOriginsExceeded,
                )
                &&& supported && capped && !rented ==> r == Err::<crate::SaleJson, MarketError>(
                    MarketError::InsufficientStorage,
                )
                &&& supported && capped && rented && !typed ==> r == Err::<
                    crate::SaleJson,
                    MarketError,
                >(MarketError::TokenTypeNotInTokenId)
                &&& supported && capped && rented && typed && !free ==> r == Err::<
                    crate::SaleJson,
                    MarketError,
                >(MarketError::ListingExists)
                &&& r is Ok <==> supported && capped && rented && typed && free
            }),
            r is Ok <==> old(self).can_start_sale(args, token_id, owner_id, nft_contract_id),
            r matches Ok(json) ==> {
                let key = (nft_contract_id@, token_id@);
                let sale = final(self).sales_view()[key];
                &&& final(self).sales_view() == old(self).sales_view().insert(key, sale)
                &&& final(self).market.sales@ == old(self).market.sales@.push(sale)
                &&& sale.owner_id == owner_id
                &&& sale.approval_id == approval_id
                &&& sale.nft_contract_id == nft_contract_id
                &&& sale.token_id == token_id
                &&& sale.sale_conditions == args.sale_conditions
                &&& sale.created_at == now
                &&& sale.token_type == args.token_type
                &&& sale.start == Some(
                    match args.start {
                        Some(s) => s,
                        None => now,
                    },
                )
                &&& sale.end == args.end
                &&& sale.origins@ == opt_origins_seq(args.origins)
                &&& sale.shown_by(json)
                &&& final(self).market.bid_accounts == old(self).market.bid_accounts
                &&& final(self).same_config(old(self))
                &&& final(self).same_bids(old(self))
                &&& final(self).same_auctions(old(self))
            },
    {
        let crate::SaleArgs { sale_conditions, token_type, start, end, origins } = args;
        let mut i: usize = 0;
        while i < sale_conditions.len()
            invariant
                *self == *old(self),
                old(self).wf(),
                sale_conditions == args.sale_conditions,
                i <= sale_conditions@.len(),
                forall|j: int| 0 <= j < i ==> self.supports(#[trigger] sale_conditions@[j].0@),
            decreases sale_conditions@.len() - i,
        {
            if !self.is_supported(&sale_conditions[i].0) {
                return Err(MarketError::TokenNotSupported);
            }
            i = i + 1;
        }
        let total = match &origins {
            Some(o) => calculate_origins(o),
            None => 0,
        };
        if total >= MAX_ORIGINS {
            return Err(MarketError::MaxOriginsExceeded);
        }
        let paid = self.get_storage_paid(&owner_id);
        let listed = self.count_sales_by_owner(&owner_id);
        match (listed as u128).checked_mul(crate::STORAGE_PER_SALE) {
            Some(occupied) => {
                if paid <= occupied {
                    return Err(MarketError::InsufficientStorage);
                }
            },
            None => return Err(MarketError::InsufficientStorage),
        }
        if let Some(t) = &token_type {
            if !str_contains(&token_id, t) {
                return Err(MarketError::TokenTypeNotInTokenId);
            }
        }
        if self.find_sale(&nft_contract_id, &token_id).is_some() || self.has_auction_for(
            &nft_contract_id,
            &token_id,
        ) {
            return Err(MarketError::ListingExists);
        }
        let sale = crate::Sale {
            owner_id,
            approval_id,
            nft_contract_id,
            token_id,
            sale_conditions,
            created_at: now,
            token_type,
            start: Some(
                match start {
                    Some(s) => s,
                    None => now,
                },
            ),
            end,
            origins: match origins {
                Some(o) => o,
                None => Vec::new(),
            },
        };
        let json = sale.to_json();
        proof {
            assert(!has_key(self.market.sales@, sale_key(), sale_key()(sale)));
            crate::table::lemma_table_push(self.market.sales@, sale_key(), sale_itself(), sale);
            crate::table::lemma_table_index(
                self.market.sales@.push(sale),
                sale_key(),
                sale_itself(),
                self.market.sales@.len() as int,
            );
        }
        self.market.sales.push(sale);
        Ok(json)
    }

    /// Removes the sale of an item. While the sale's window is open only its owner may do so;
    /// afterwards anyone may.
    pub fn remove_sale(
        &mut self,
        nft_contract_id: AccountId,
        token_id: TokenId,
        caller: AccountId,
        now: u64,
    ) -> (r: Result<crate::Sale, MarketError>)
        requires
            old(self).wf(),
        ensures
            final(self).wf(),
            r is Err ==> *final(self) == *old(self),
            ({
                let key = (nft_contract_id@, token_id@);
                let listed = old(self).has_sale(nft_contract_id@, token_id@);
                let sale = old(self).sales_view()[key];
                let allowed = !sale.spec_in_limits(now) || sale.owner_id@ == caller@;
                &&& !listed ==> r == Err::<crate::Sale, MarketError>(MarketError::SaleNotFound)
                &&& listed && !allowed ==> r == Err::<crate::Sale, MarketError>(
                    MarketError::NotOwner,
                )
                &&& r is Ok <==> listed && allowed
                &&& r matches Ok(s) ==> s == sale && final(self).sales_view() == old(self).sales_view().remove(key) && final(self).market.bid_accounts == old(self).market.bid_accounts && final(self).same_config(old(self)) && final(self).same_bids(old(self)) && final(self).same_auctions(old(self))
            }),
    {
        match self.find_sale(&nft_contract_id, &token_id) {
            None => return Err(MarketError::SaleNotFound),
            Some(i) => {
                if self.market.sales[i].in_limits(now) && self.market.sales[i].owner_id != caller {
                    return Err(MarketError::NotOwner);
                }
            },
        }
        self.internal_remove_sale(&nft_contract_id, &token_id)
    }

    /// The sale's owner `caller` sets the price asked in currency `ft_token_id`.
    pub fn update_price(
        &mut self,
        nft_contract_id: AccountId,
        token_id: TokenId,
        ft_token_id: FungibleTokenId,
        price: u128,
        caller: AccountId,
    ) -> (r: Result<(), MarketError>)
        requires
            old(self).wf(),
        ensures
            final(self).wf(),
            r is Err ==> *final(self) == *old(self),
            ({
                let key = (nft_contract_id@, token_id@);
                let listed = old(self).has_sale(nft_contract_id@, token_id@);
                let sale = old(self).sales_view()[key];
                &&& !listed ==> r == Err::<(), MarketError>(MarketError::SaleNotFound)
                &&& listed && sale.owner_id@ != caller@ ==> r == Err::<(), MarketError>(
                    MarketError::NotOwner,
                )
                &&& listed && sale.owner_id@ == caller@ && !old(self).supports(ft_token_id@) ==> r
                    == Err::<(), MarketError>(MarketError::TokenNotSupported)
                &&& r is Ok <==> listed && sale.owner_id@ == caller@ && old(self).supports(
                    ft_token_id@,
                )
                &&& r is Ok ==> {
                    let updated = final(self).sales_view()[key];
                    &&& final(self).sales_view() == old(self).sales_view().insert(key, updated)
                    &&& forall|f: Seq<char>|
                        #[trigger] spec_price(updated.sale_conditions@, f) == if f == ft_token_id@ {
                            Some(price)
                        } else {
                            spec_price(sale.sale_conditions@, f)
                        }
                    &&& updated.owner_id == sale.owner_id
                    &&& updated.approval_id == sale.approval_id
                    &&& updated.nft_contract_id == sale.nft_contract_id
                    &&& updated.token_id == sale.token_id
                    &&& updated.created_at == sale.created_at
                    &&& updated.token_type == sale.token_type
                    &&& updated.start == sale.start
                    &&& updated.end == sale.end
                    &&& updated.origins == sale.origins
                    &&& final(self).market.bid_accounts == old(self).market.bid_accounts
                    &&& final(self).same_config(old(self))
                    &&& final(self).same_bids(old(self))
                    &&& final(self).same_auctions(old(self))
                }
            }),
    {
        let i = match self.find_sale(&nft_contract_id, &token_id) {
            None => return Err(MarketError::SaleNotFound),
            Some(i) => i,
        };
        if self.market.sales[i].owner_id != caller {
            return Err(MarketError::NotOwner);
        }
        if !self.is_supported(&ft_token_id) {
            return Err(MarketError::TokenNotSupported);
        }
        let ghost old_sales = self.market.sales@;
        let mut sale = self.market.sales.remove(i);
        let ghost old_conds = sale.sale_conditions@;
        match find_price(&sale.sale_conditions, &ft_token_id) {
            Some(j) => {
                let entry = (sale.sale_conditions[j].0.clone(), price);
                proof {
                    assert forall|f: Seq<char>| #[trigger] spec_price(old_conds.update(j as int, entry), f)
                        == if f == ft_token_id@ {
                        Some(price)
                    } else {
                        spec_price(old_conds, f)
                    } by {
                        lemma_price_update(old_conds, j as int, entry, f);
                    }
                }
                sale.sale_conditions.set(j, entry);
            },
            None => {
                let entry = (ft_token_id, price);
                proof {
                    assert forall|f: Seq<char>| #[trigger] spec_price(old_conds.push(entry), f)
                        == if f == entry.0@ {
                        Some(price)
                    } else {
                        spec_price(old_conds, f)
                    } by {
                        lemma_price_push(old_conds, entry, f);
                    }
                }
                sale.sale_conditions.push(entry);
            },
        }
        let ghost updated = sale;
        self.market.sales.insert(i, sale);
        proof {
            assert(self.market.sales@ =~= old_sales.update(i as int, updated));
            crate::table::lemma_table_update(old_sales, sale_key(), sale_itself(), i as int, updated);
            crate::table::lemma_table_index(self.market.sales@, sale_key(), sale_itself(), i as int);
        }
        Ok(())
    }
}

} // verus!
