use vstd::prelude::*;

use crate::sale::{Sale, SaleJson};
use crate::{AccountId, Bid, BidId, FungibleTokenId, Market, MarketError, TokenId};

verus! {

/// Which sales a listing shows.
pub enum SaleSelector {
    All,
    Owner(AccountId),
    Contract(AccountId),
    TokenType(String),
}

/// Sale `s` is shown by selector `sel`.
pub open spec fn sale_selected(sel: SaleSelector, s: Sale) -> bool {
    match sel {
        SaleSelector::All => true,
        SaleSelector::Owner(o) => s.owner_id@ == o@,
        SaleSelector::Contract(c) => s.nft_contract_id@ == c@,
        SaleSelector::TokenType(t) => s.token_type matches Some(tt) && tt@ == t@,
    }
}

pub open spec fn selector_pred(sel: SaleSelector) -> spec_fn(Sale) -> bool {
    |s: Sale| sale_selected(sel, s)
}

/// The page of `items` that starts at `from` and holds at most `limit` entries: its bounds.
pub open spec fn page_start(len: int, from: int) -> int {
    if from < len {
        from
    } else {
        len
    }
}

pub open spec fn page_end(len: int, from: int, limit: int) -> int {
    if from + limit < len {
        from + limit
    } else {
        len
    }
}

/// `page` shows, in order, the sales of `sales` from `from` on, at most `limit` of them.
pub open spec fn shows_page(page: Seq<SaleJson>, sales: Seq<Sale>, from: int, limit: int) -> bool {
    let lo = page_start(sales.len() as int, from);
    let hi = page_end(sales.len() as int, from, limit);
    &&& page.len() == if lo <= hi {
        hi - lo
    } else {
        0
    }
    &&& forall|k: int| 0 <= k < page.len() ==> sales[lo + k].shown_by(#[trigger] page[k])
}

/// Which bids a listing shows.
pub enum BidSelector {
    Item(AccountId, TokenId, FungibleTokenId),
    Owner(AccountId),
}

/// Live bid `b` is shown by selector `sel`.
pub open spec fn bid_selected(sel: BidSelector, b: Bid) -> bool {
    match sel {
        BidSelector::Item(c, t, ft) => b.is_for(c@, t@) && b.fungible_token@ == ft@,
        BidSelector::Owner(o) => b.owner_id@ == o@,
    }
}

/// `ids` lists, in increasing order, exactly the live bids of `bids` that `sel` shows.
pub open spec fn lists_bids(ids: Seq<BidId>, bids: Seq<Option<Bid>>, sel: BidSelector) -> bool {
    &&& forall|k: int|
        0 <= k < ids.len() ==> (#[trigger] ids[k]) < bids.len() && bids[ids[k] as int] is Some
            && bid_selected(sel, bids[ids[k] as int]->0)
    &&& forall|k: int, l: int| 0 <= k < l < ids.len() ==> #[trigger] ids[k] < #[trigger] ids[l]
    &&& forall|i: int|
        0 <= i < bids.len() && #[trigger] bids[i] is Some && bid_selected(sel, bids[i]->0)
            ==> ids.contains(i as u128)
}

/// In a listing by price, bid `a` comes before bid `b`: a lower price, or the same price and
/// an earlier id.
pub open spec fn price_before(bids: Seq<Option<Bid>>, a: u128, b: u128) -> bool {
    ||| bids[a as int]->0.price < bids[b as int]->0.price
    ||| (bids[a as int]->0.price == bids[b as int]->0.price && a < b)
}

/// `ids` lists exactly the live bids of `bids` that `sel` shows, each once, by increasing price
/// and, at one price, in the order they were placed.
pub open spec fn lists_bids_by_price(ids: Seq<BidId>, bids: Seq<Option<Bid>>, sel: BidSelector) -> bool {
    &&& forall|k: int|
        0 <= k < ids.len() ==> (#[trigger] ids[k]) < bids.len() && bids[ids[k] as int] is Some
            && bid_selected(sel, bids[ids[k] as int]->0)
    &&& forall|k: int, l: int|
        0 <= k < l < ids.len() ==> price_before(bids, #[trigger] ids[k], #[trigger] ids[l])
    &&& forall|i: int|
        0 <= i < bids.len() && #[trigger] bids[i] is Some && bid_selected(sel, bids[i]->0)
            ==> ids.contains(i as u128)
}

impl Market {
    /// What a reader sees of a sale.
    pub fn json_from_sale(&self, sale: &Sale) -> (r: SaleJson)
        ensures
            sale.shown_by(r),
    {
        sale.to_json()
    }

    /// Number of sales.
    pub fn get_supply_sales(&self) -> (r: u64)
        ensures
            r == self.market.sales@.len(),
    {
        self.market.sales.len() as u64
    }

    /// Number of sales that `sel` shows.
    fn count_selected(&self, sel: &SaleSelector) -> (r: usize)
        ensures
            r == self.market.sales@.filter(selector_pred(*sel)).len(),
    {
        let ghost sales = self.market.sales@;
        let ghost pred = selector_pred(*sel);
        let mut count: usize = 0;
        let mut i: usize = 0;
        while i < self.market.sales.len()
            invariant
                sales == self.market.sales@,
                pred == selector_pred(*sel),
                i <= sales.len(),
                count == sales.subrange(0, i as int).filter(pred).len(),
                count <= i,
            decreases sales.len() - i,
        {
            proof {
                assert(sales.subrange(0, i + 1) =~= sales.subrange(0, i as int).push(sales[i as int]));
                sales.subrange(0, i as int).lemma_filter_push(sales[i as int], pred);
            }
            if self.selects(sel, &self.market.sales[i]) {
                count = count + 1;
            }
            i = i + 1;
        }
        assert(sales.subrange(0, i as int) =~= sales);
        count
    }

    fn selects(&self, sel: &SaleSelector, sale: &Sale) -> (r: bool)
        ensures
            r == sale_selected(*sel, *sale),
    {
        match sel {
            SaleSelector::All => true,
            SaleSelector::Owner(o) => sale.owner_id == *o,
            SaleSelector::Contract(c) => sale.nft_contract_id == *c,
            SaleSelector::TokenType(t) => match &sale.token_type {
                Some(tt) => *tt == *t,
                None => false,
            },
        }
    }

    /// The sales that `sel` shows, from the `from`-th on, at most `limit` of them.
    fn sales_page(&self, sel: &SaleSelector, from: u128, limit: u128) -> (r: Vec<SaleJson>)
        ensures
            shows_page(r@, self.market.sales@.filter(selector_pred(*sel)), from as int, limit as int),
    {
        let ghost sales = self.market.sales@;
        let ghost pred = selector_pred(*sel);
        let mut page: Vec<SaleJson> = Vec::new();
        let mut count: usize = 0;
        let mut i: usize = 0;
        while i < self.market.sales.len()
            invariant
                sales == self.market.sales@,
                pred == selector_pred(*sel),
                i <= sales.len(),
                count == sales.subrange(0, i as int).filter(pred).len(),
                count <= i,
                page@.len() == if count <= from {
                    0
                } else if count - from < limit {
                    count - from
                } else {
                    limit as int
                },
                forall|k: int|
                    0 <= k < page@.len() ==> sales.subrange(0, i as int).filter(pred)[from + k].shown_by(
                        #[trigger] page@[k],
                    ),
            decreases sales.len() - i,
        {
            proof {
                assert(sales.subrange(0, i + 1) =~= sales.subrange(0, i as int).push(sales[i as int]));
                sales.subrange(0, i as int).lemma_filter_push(sales[i as int], pred);
            }
            if self.selects(sel, &self.market.sales[i]) {
                if (count as u128) >= from && (count as u128) - from < limit {
                    let json = self.market.sales[i].to_json();
                    page.push(json);
                }
                count = count + 1;
            }
            i = i + 1;
        }
        assert(sales.subrange(0, i as int) =~= sales);
        page
    }

    /// The sales from the `from_index`-th (default the first) on, at most `limit` of them
    /// (default all).
    pub fn get_sales(&self, from_index: Option<u128>, limit: Option<u64>) -> (r: Vec<SaleJson>)
        ensures
            shows_page(
                r@,
                self.market.sales@.filter(selector_pred(SaleSelector::All)),
                match from_index {
                    Some(f) => f as int,
                    None => 0,
                },
                match limit {
                    Some(l) => l as int,
                    None => u128::MAX as int,
                },
            ),
    {
        let from = match from_index {
            Some(f) => f,
            None => 0,
        };
        let limit = match limit {
            Some(l) => l as u128,
            None => u128::MAX,
        };
        self.sales_page(&SaleSelector::All, from, limit)
    }

    /// Number of sales that `account_id` has listed.
    pub fn get_supply_by_owner_id(&self, account_id: AccountId) -> (r: u64)
        ensures
            r == self.market.sales@.filter(selector_pred(SaleSelector::Owner(account_id))).len(),
    {
        self.count_selected(&SaleSelector::Owner(account_id)) as u64
    }

    /// The sales that `account_id` has listed, from the `from_index`-th on, at most `limit`.
    pub fn get_sales_by_owner_id(&self, account_id: AccountId, from_index: u64, limit: u64) -> (r: Vec<
        SaleJson,
    >)
        ensures
            shows_page(
                r@,
                self.market.sales@.filter(selector_pred(SaleSelector::Owner(account_id))),
                from_index as int,
                limit as int,
            ),
    {
        self.sales_page(&SaleSelector::Owner(account_id), from_index as u128, limit as u128)
    }

    /// Number of sales of items of the collection `nft_contract_id`.
    pub fn get_supply_by_nft_contract_id(&self, nft_contract_id: AccountId) -> (r: u64)
        ensures
            r == self.market.sales@.filter(selector_pred(SaleSelector::Contract(nft_contract_id))).len(),
    {
        self.count_selected(&SaleSelector::Contract(nft_contract_id)) as u64
    }

    /// The sales of items of the collection `nft_contract_id`, from the `from_index`-th on, at
    /// most `limit`.
    pub fn get_sales_by_nft_contract_id(
        &self,
        nft_contract_id: AccountId,
        from_index: u64,
        limit: u64,
    ) -> (r: Vec<SaleJson>)
        ensures
            shows_page(
                r@,
                self.market.sales@.filter(selector_pred(SaleSelector::Contract(nft_contract_id))),
                from_index as int,
                limit as int,
            ),
    {
        self.sales_page(&SaleSelector::Contract(nft_contract_id), from_index as u128, limit as u128)
    }

    /// Number of sales of items of token type `token_type`.
    pub fn get_supply_by_nft_token_type(&self, token_type: String) -> (r: u64)
        ensures
            r == self.market.sales@.filter(selector_pred(SaleSelector::TokenType(token_type))).len(),
    {
        self.count_selected(&SaleSelector::TokenType(token_type)) as u64
    }

    /// The sales of items of token type `token_type`, from the `from_index`-th on, at most
    /// `limit`.
    pub fn get_sales_by_nft_token_type(&self, token_type: String, from_index: u64, limit: u64) -> (r:
        Vec<SaleJson>)
        ensures
            shows_page(
                r@,
                self.market.sales@.filter(selector_pred(SaleSelector::TokenType(token_type))),
                from_index as int,
                limit as int,
            ),
    {
        self.sales_page(&SaleSelector::TokenType(token_type), from_index as u128, limit as u128)
    }

    /// The sale of the item `token_id` of `nft_contract_id`, if it is listed.
    pub fn get_sale(&self, nft_contract_id: AccountId, token_id: TokenId) -> (r: Option<SaleJson>)
        requires
            self.wf(),
        ensures
            r is Some <==> self.has_sale(nft_contract_id@, token_id@),
            r matches Some(json) ==> self.sales_view()[(nft_contract_id@, token_id@)].shown_by(json),
    {
        match self.find_sale(&nft_contract_id, &token_id) {
            Some(i) => Some(self.market.sales[i].to_json()),
            None => None,
        }
    }

    /// The live bid `bid_id`.
    pub fn get_bid_by_index(&self, bid_id: u128) -> (r: Result<Bid, MarketError>)
        ensures
            r is Ok <==> self.spec_bid(bid_id as int) is Some,
            r is Err ==> r == Err::<Bid, MarketError>(MarketError::BidNotFound),
            r matches Ok(b) ==> b.same_as(self.spec_bid(bid_id as int)->0),
    {
        if bid_id < self.market.bids.len() as u128 {
            if let Some(b) = &self.market.bids[bid_id as usize] {
                return Ok(b.copy());
            }
        }
        Err(MarketError::BidNotFound)
    }

    fn bid_selects(&self, sel: &BidSelector, bid: &Bid) -> (r: bool)
        ensures
            r == bid_selected(*sel, *bid),
    {
        match sel {
            BidSelector::Item(c, t, ft) => bid.nft_contract_id == *c && bid.token_id == *t
                && bid.fungible_token == *ft,
            BidSelector::Owner(o) => bid.owner_id == *o,
        }
    }

    /// The ids of the live bids that `sel` shows, in increasing order.
    fn list_bids(&self, sel: &BidSelector) -> (r: Vec<BidId>)
        ensures
            lists_bids(r@, self.market.bids@, *sel),
    {
        let ghost bids = self.market.bids@;
        let mut ids: Vec<BidId> = Vec::new();
        let mut i: usize = 0;
        while i < self.market.bids.len()
            invariant
                bids == self.market.bids@,
                i <= bids.len(),
                forall|k: int|
                    0 <= k < ids@.len() ==> (#[trigger] ids@[k]) < i && bids[ids@[k] as int] is Some
                        && bid_selected(*sel, bids[ids@[k] as int]->0),
                forall|k: int, l: int|
                    0 <= k < l < ids@.len() ==> #[trigger] ids@[k] < #[trigger] ids@[l],
                forall|j: int|
                    0 <= j < i && #[trigger] bids[j] is Some && bid_selected(*sel, bids[j]->0)
                        ==> ids@.contains(j as u128),
            decreases bids.len() - i,
        {
            let take = match &self.market.bids[i] {
                Some(b) => self.bid_selects(sel, b),
                None => false,
            };
            if take {
                let ghost before = ids@;
                ids.push(i as u128);
                proof {
                    assert forall|j: int|
                        0 <= j < i && #[trigger] bids[j] is Some && bid_selected(*sel, bids[j]->0)
                            implies ids@.contains(j as u128) by {
                        let w = choose|w: int| 0 <= w < before.len() && before[w] == j as u128;
                        assert(ids@[w] == j as u128);
                    }
                    assert(ids@[before.len() as int] == i as u128);
                }
            }
            i = i + 1;
        }
        ids
    }

    /// The price of the live bid `id`.
    fn price_at(&self, id: usize) -> (r: u128)
        requires
            id < self.market.bids@.len(),
            self.market.bids@[id as int] is Some,
        ensures
            r == self.market.bids@[id as int]->0.price,
    {
        match &self.market.bids[id] {
            Some(b) => b.price,
            None => 0,
        }
    }

    /// The ids of the live bids that `sel` shows, by increasing price and then id.
    fn list_bids_by_price(&self, sel: &BidSelector) -> (r: Vec<BidId>)
        ensures
            lists_bids_by_price(r@, self.market.bids@, *sel),
    {
        let ghost bids = self.market.bids@;
        let mut ids: Vec<BidId> = Vec::new();
        let mut i: usize = 0;
        while i < self.market.bids.len()
            invariant
                bids == self.market.bids@,
                i <= bids.len(),
                forall|k: int|
                    0 <= k < ids@.len() ==> (#[trigger] ids@[k]) < i && bids[ids@[k] as int] is Some
                        && bid_selected(*sel, bids[ids@[k] as int]->0),
                forall|k: int, l: int|
                    0 <= k < l < ids@.len() ==> price_before(
                        bids,
                        #[trigger] ids@[k],
                        #[trigger] ids@[l],
                    ),
                forall|j: int|
                    0 <= j < i && #[trigger] bids[j] is Some && bid_selected(*sel, bids[j]->0)
                        ==> ids@.contains(j as u128),
            decreases bids.len() - i,
        {
            let (take, price) = match &self.market.bids[i] {
                Some(b) => (self.bid_selects(sel, b), b.price),
                None => (false, 0),
            };
            if take {
                let mut k: usize = 0;
                let mut found = false;
                while !found && k < ids.len()
                    invariant
                        bids == self.market.bids@,
                        i < bids.len(),
                        k <= ids@.len(),
                        forall|m: int| 0 <= m < ids@.len() ==> (#[trigger] ids@[m]) < i && bids[ids@[m] as int] is Some,
                        forall|m: int| 0 <= m < k ==> bids[(#[trigger] ids@[m]) as int]->0.price <= price,
                        found ==> k < ids@.len() && bids[ids@[k as int] as int]->0.price > price,
                    decreases ids@.len() - k + (if found {
                        0int
                    } else {
                        1int
                    }),
                {
                    if self.price_at(ids[k] as usize) > price {
                        found = true;
                    } else {
                        k = k + 1;
                    }
                }
                let ghost before = ids@;
                ids.insert(k, i as u128);
                proof {
                    before.insert_ensures(k as int, i as u128);
                    let t = ids@;
                    assert forall|x: int| 0 <= x < t.len() implies #[trigger] t[x] == if x < k {
                        before[x]
                    } else if x == k {
                        i as u128
                    } else {
                        before[x - 1]
                    } by {
                        if x > k {
                            assert(t[(x - 1) + 1] == before[x - 1]);
                        }
                    }
                    assert forall|m: int| k < m < t.len() implies bids[(#[trigger] t[m]) as int]->0.price
                        > price by {
                        if m - 1 > k {
                            assert(price_before(bids, before[k as int], before[m - 1]));
                        }
                    }
                    assert forall|a: int, b: int|
                        0 <= a < b < t.len() implies price_before(bids, #[trigger] t[a], #[trigger] t[b]) by {
                        if a < k && b < k {
                            assert(price_before(bids, before[a], before[b]));
                        } else if a < k && b > k {
                            assert(price_before(bids, before[a], before[b - 1]));
                        } else if a > k && b > k {
                            assert(price_before(bids, before[a - 1], before[b - 1]));
                        }
                    }
                    assert forall|j: int|
                        0 <= j < i + 1 && #[trigger] bids[j] is Some && bid_selected(*sel, bids[j]->0)
                            implies t.contains(j as u128) by {
                        if j == i {
                            assert(t[k as int] == i as u128);
                        } else {
                            assert(before.contains(j as u128));
                            let w = choose|w: int| 0 <= w < before.len() && before[w] == j as u128;
                            if w < k {
                                assert(t[w] == j as u128);
                            } else {
                                assert(t[w + 1] == j as u128);
                            }
                        }
                    }
                }
            }
            i = i + 1;
        }
        ids
    }

    /// The ids of the live bids on the item `token_id` of `nft_contract_id` in `ft_token_id`,
    /// by increasing price and, at one price, in the order they were placed.
    pub fn get_bids_by_nft_and_token(
        &self,
        nft_contract_id: AccountId,
        token_id: TokenId,
        ft_token_id: FungibleTokenId,
    ) -> (r: Vec<BidId>)
        ensures
            lists_bids_by_price(
                r@,
                self.market.bids@,
                BidSelector::Item(nft_contract_id, token_id, ft_token_id),
            ),
    {
        self.list_bids_by_price(&BidSelector::Item(nft_contract_id, token_id, ft_token_id))
    }

    /// The ids of the live bids of `owner_id`, in increasing order.
    pub fn get_bids_id_by_account(&self, owner_id: AccountId) -> (r: Vec<BidId>)
        ensures
            lists_bids(r@, self.market.bids@, BidSelector::Owner(owner_id)),
    {
        self.list_bids(&BidSelector::Owner(owner_id))
    }
}

} // verus!
