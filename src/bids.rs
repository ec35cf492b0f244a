use vstd::prelude::*;

use crate::fee::{calculate_origins, origins_total};
use crate::market::{bids_at_their_ids, one_bid_per_owner, owner_bid_at};
use crate::{AccountId, Bid, BidId, FungibleTokenId, Market, MarketError, Origins, TokenId, MAX_ORIGINS};

verus! {

/// Total basis points of an optional referral table (none is zero).
pub open spec fn opt_origins_total(origins: Option<Origins>) -> int {
    match origins {
        Some(o) => origins_total(o@),
        None => 0,
    }
}

/// The referral table of an optional one (none is empty).
pub open spec fn opt_origins_seq(origins: Option<Origins>) -> Seq<(AccountId, u32)> {
    match origins {
        Some(o) => o@,
        None => seq![],
    }
}

/// `owner` has a live bid on the item `token` of `contract`.
pub open spec fn has_owner_bid(
    bids: Seq<Option<Bid>>,
    owner: Seq<char>,
    contract: Seq<char>,
    token: Seq<char>,
) -> bool {
    exists|i: int| owner_bid_at(bids, i, owner, contract, token)
}

/// The position of `owner`'s live bid on the item `token` of `contract`.
pub open spec fn owner_bid_index(
    bids: Seq<Option<Bid>>,
    owner: Seq<char>,
    contract: Seq<char>,
    token: Seq<char>,
) -> int {
    choose|i: int| owner_bid_at(bids, i, owner, contract, token)
}

/// Bid `i` is live and is for this item, currency, owner and price.
pub open spec fn bid_matches(
    bids: Seq<Option<Bid>>,
    i: int,
    contract: Seq<char>,
    token: Seq<char>,
    ft: Seq<char>,
    owner: Seq<char>,
    price: u128,
) -> bool {
    &&& owner_bid_at(bids, i, owner, contract, token)
    &&& bids[i]->0.fungible_token@ == ft
    &&& bids[i]->0.price == price
}

/// Bid `i` is live, for this item and currency, and its window has ended by `now`.
pub open spec fn bid_expired_at(
    bids: Seq<Option<Bid>>,
    i: int,
    contract: Seq<char>,
    token: Seq<char>,
    ft: Seq<char>,
    now: u64,
) -> bool {
    &&& bids[i] is Some
    &&& bids[i]->0.is_for(contract, token)
    &&& bids[i]->0.fungible_token@ == ft
    &&& bids[i]->0.is_expired(now)
}

/// `after` is `before` with one bid placed: `buyer_id`'s live bid on the item, if any, is
/// cleared and handed back as `replaced`, and the new bid, with id `id` and the given terms,
/// is appended; it is then the buyer's only live bid on the item. Nothing else changes.
pub open spec fn placed_bid(
    before: Market,
    after: Market,
    id: BidId,
    replaced: Option<Bid>,
    nft_contract_id: AccountId,
    token_id: TokenId,
    amount: u128,
    ft_token_id: FungibleTokenId,
    buyer_id: AccountId,
    start: u64,
    end: Option<u64>,
    origins: Option<Origins>,
) -> bool {
    let old_bids = before.market.bids@;
    let k = owner_bid_index(old_bids, buyer_id@, nft_contract_id@, token_id@);
    let had = has_owner_bid(old_bids, buyer_id@, nft_contract_id@, token_id@);
    let kept = if had {
        old_bids.update(k, None)
    } else {
        old_bids
    };
    let b = after.market.bids@[id as int]->0;
    &&& id == before.market.next_bid_id
    &&& after.same_but_bids(&before)
    &&& after.market.next_bid_id == before.market.next_bid_id + 1
    &&& (replaced is Some <==> had)
    &&& (replaced matches Some(p) ==> p.same_as(old_bids[k]->0))
    &&& after.market.bids@ == kept.push(after.market.bids@[id as int])
    &&& after.market.bids@[id as int] is Some
    &&& b.bid_id == id
    &&& b.nft_contract_id == nft_contract_id
    &&& b.token_id == token_id
    &&& b.owner_id == buyer_id
    &&& b.fungible_token == ft_token_id
    &&& b.price == amount
    &&& b.start == start
    &&& b.end == end
    &&& b.origins@ == opt_origins_seq(origins)
    &&& owner_bid_at(
        after.market.bids@,
        id as int,
        buyer_id@,
        nft_contract_id@,
        token_id@,
    )
    &&& owner_bid_index(after.market.bids@, buyer_id@, nft_contract_id@, token_id@)
        == id
}

proof fn lemma_owner_bid_unique(
    bids: Seq<Option<Bid>>,
    i: int,
    owner: Seq<char>,
    contract: Seq<char>,
    token: Seq<char>,
)
    requires
        one_bid_per_owner(bids),
        owner_bid_at(bids, i, owner, contract, token),
    ensures
        has_owner_bid(bids, owner, contract, token),
        owner_bid_index(bids, owner, contract, token) == i,
{
    let j = owner_bid_index(bids, owner, contract, token);
    assert(owner_bid_at(bids, j, owner, contract, token));
    assert(bids[i] is Some && bids[j] is Some);
}

/// Clearing a slot keeps the ledger's invariants.
pub proof fn lemma_clear_keeps_invariants(bids: Seq<Option<Bid>>, k: int)
    requires
        0 <= k < bids.len(),
        bids_at_their_ids(bids),
        one_bid_per_owner(bids),
    ensures
        bids_at_their_ids(bids.update(k, None)),
        one_bid_per_owner(bids.update(k, None)),
{
    let t = bids.update(k, None);
    assert forall|i: int| 0 <= i < t.len() && #[trigger] t[i] is Some implies t[i]->0.bid_id
        == i by {
        assert(bids[i] is Some);
    }
    assert forall|i: int, j: int|
        #![trigger t[i], t[j]]
        0 <= i < t.len() && 0 <= j < t.len() && t[i] is Some && t[j] is Some && t[i]->0.owner_id@
            == t[j]->0.owner_id@ && t[i]->0.nft_contract_id@ == t[j]->0.nft_contract_id@
            && t[i]->0.token_id@ == t[j]->0.token_id@ implies i == j by {
        assert(bids[i] is Some && bids[j] is Some);
    }
}

/// In every well-formed market an owner has at most one live bid on an item, whatever the
/// currencies of its bids: any live bid of `owner` on the item is the one at
/// `owner_bid_index`.
pub proof fn lemma_one_bid_per_owner(m: Market, owner: Seq<char>, contract: Seq<char>, token: Seq<char>)
    requires
        m.wf(),
    ensures
        forall|i: int|
            #[trigger] owner_bid_at(m.market.bids@, i, owner, contract, token) ==> i == owner_bid_index(
                m.market.bids@,
                owner,
                contract,
                token,
            ),
{
    assert forall|i: int| #[trigger] owner_bid_at(m.market.bids@, i, owner, contract, token) implies i
        == owner_bid_index(m.market.bids@, owner, contract, token) by {
        lemma_owner_bid_unique(m.market.bids@, i, owner, contract, token);
    }
}

/// Placing bids again and again. `markets[k + 1]` is `markets[k]` after `buyer_id` placed its
/// `k`-th bid on one item, in any currency, starting from a market where the buyer had no live
/// bid on that item. After the `n` placements the buyer has exactly one live bid on the item,
/// the last one placed, and every placement but the first handed back the bid before it: `n - 1`
/// bids were retracted.
pub proof fn lemma_repeated_bids(
    markets: Seq<Market>,
    ids: Seq<BidId>,
    replaced: Seq<Option<Bid>>,
    nft_contract_id: AccountId,
    token_id: TokenId,
    buyer_id: AccountId,
    amounts: Seq<u128>,
    currencies: Seq<FungibleTokenId>,
    starts: Seq<u64>,
    ends: Seq<Option<u64>>,
    origins: Seq<Option<Origins>>,
)
    requires
        ids.len() >= 1,
        markets.len() == ids.len() + 1,
        replaced.len() == ids.len(),
        amounts.len() == ids.len(),
        currencies.len() == ids.len(),
        starts.len() == ids.len(),
        ends.len() == ids.len(),
        origins.len() == ids.len(),
        forall|k: int| 0 <= k < markets.len() ==> (#[trigger] markets[k]).wf(),
        !has_owner_bid(markets[0].market.bids@, buyer_id@, nft_contract_id@, token_id@),
        forall|k: int|
            0 <= k < ids.len() ==> placed_bid(
                #[trigger] markets[k],
                markets[k + 1],
                ids[k],
                replaced[k],
                nft_contract_id,
                token_id,
                amounts[k],
                currencies[k],
                buyer_id,
                starts[k],
                ends[k],
                origins[k],
            ),
    ensures
        ({
            let last = markets[ids.len() as int].market.bids@;
            let id = ids[ids.len() - 1] as int;
            &&& owner_bid_at(last, id, buyer_id@, nft_contract_id@, token_id@)
            &&& forall|i: int|
                #[trigger] owner_bid_at(last, i, buyer_id@, nft_contract_id@, token_id@) ==> i == id
        }),
        replaced[0] is None,
        forall|k: int| 1 <= k < ids.len() ==> (#[trigger] replaced[k]) is Some,
{
    let n = ids.len() as int;
    assert(placed_bid(
        markets[0],
        markets[1],
        ids[0],
        replaced[0],
        nft_contract_id,
        token_id,
        amounts[0],
        currencies[0],
        buyer_id,
        starts[0],
        ends[0],
        origins[0],
    ));
    assert forall|k: int| 1 <= k < ids.len() implies (#[trigger] replaced[k]) is Some by {
        let j = k - 1;
        assert(placed_bid(
            markets[j],
            markets[j + 1],
            ids[j],
            replaced[j],
            nft_contract_id,
            token_id,
            amounts[j],
            currencies[j],
            buyer_id,
            starts[j],
            ends[j],
            origins[j],
        ));
        assert(owner_bid_at(markets[k].market.bids@, ids[j] as int, buyer_id@, nft_contract_id@, token_id@));
        assert(placed_bid(
            markets[k],
            markets[k + 1],
            ids[k],
            replaced[k],
            nft_contract_id,
            token_id,
            amounts[k],
            currencies[k],
            buyer_id,
            starts[k],
            ends[k],
            origins[k],
        ));
    }
    let j = n - 1;
    assert(placed_bid(
        markets[j],
        markets[j + 1],
        ids[j],
        replaced[j],
        nft_contract_id,
        token_id,
        amounts[j],
        currencies[j],
        buyer_id,
        starts[j],
        ends[j],
        origins[j],
    ));
    assert(markets[n].wf());
    lemma_one_bid_per_owner(markets[n], buyer_id@, nft_contract_id@, token_id@);
}

impl Market {
    /// The position of `owner`'s live bid on the item `token_id` of `nft_contract_id`.
    fn find_owner_bid(&self, owner_id: &AccountId, nft_contract_id: &AccountId, token_id: &TokenId) -> (r:
        Option<usize>)
        requires
            self.wf(),
        ensures
            r matches Some(k) ==> owner_bid_at(
                self.market.bids@,
                k as int,
                owner_id@,
                nft_contract_id@,
                token_id@,
            ) && owner_bid_index(self.market.bids@, owner_id@, nft_contract_id@, token_id@) == k,
            r is None <==> !has_owner_bid(self.market.bids@, owner_id@, nft_contract_id@, token_id@),
    {
        let mut i: usize = 0;
        while i < self.market.bids.len()
            invariant
                self.wf(),
                i <= self.market.bids@.len(),
                forall|j: int|
                    0 <= j < i ==> !#[trigger] owner_bid_at(
                        self.market.bids@,
                        j,
                        owner_id@,
                        nft_contract_id@,
                        token_id@,
                    ),
            decreases self.market.bids@.len() - i,
        {
            if let Some(b) = &self.market.bids[i] {
                if b.owner_id == *owner_id && b.nft_contract_id == *nft_contract_id && b.token_id
                    == *token_id {
                    proof {
                        lemma_owner_bid_unique(
                            self.market.bids@,
                            i as int,
                            owner_id@,
                            nft_contract_id@,
                            token_id@,
                        );
                    }
                    return Some(i);
                }
            }
            i = i + 1;
        }
        None
    }

    /// Places a bid of `amount` in `ft_token_id` by `buyer_id` on an item. A live bid of the
    /// same buyer on the same item, in any currency, is withdrawn and handed back. No funds
    /// move: the bid is checked against escrow only when it is selected.
    pub fn add_bid(
        &mut self,
        nft_contract_id: AccountId,
        token_id: TokenId,
        amount: u128,
        ft_token_id: FungibleTokenId,
        buyer_id: AccountId,
        start: u64,
        end: Option<u64>,
        origins: Option<Origins>,
    ) -> (r: Result<(BidId, Option<Bid>), MarketError>)
        requires
            old(self).wf(),
        ensures
            final(self).wf(),
            !old(self).supports(ft_token_id@) ==> r == Err::<(BidId, Option<Bid>), MarketError>(
                MarketError::TokenNotSupported,
            ),
            old(self).supports(ft_token_id@) && opt_origins_total(origins) >= MAX_ORIGINS ==> r
                == Err::<(BidId, Option<Bid>), MarketError>(MarketError::MaxOriginsExceeded),
            r is Ok <==> old(self).supports(ft_token_id@) && opt_origins_total(origins)
                < MAX_ORIGINS,
            r is Err ==> *final(self) == *old(self),
            r matches Ok((id, replaced)) ==> placed_bid(
                *old(self),
                *final(self),
                id,
                replaced,
                nft_contract_id,
                token_id,
                amount,
                ft_token_id,
                buyer_id,
                start,
                end,
                origins,
            ),
    {
        if !self.is_supported(&ft_token_id) {
            return Err(MarketError::TokenNotSupported);
        }
        let total = match &origins {
            Some(o) => calculate_origins(o),
            None => 0,
        };
        if total >= MAX_ORIGINS {
            return Err(MarketError::MaxOriginsExceeded);
        }
        let ghost old_bids = self.market.bids@;
        let replaced = match self.find_owner_bid(&buyer_id, &nft_contract_id, &token_id) {
            Some(k) => {
                let previous = match &self.market.bids[k] {
                    Some(b) => Some(b.copy()),
                    None => None,
                };
                proof {
                    lemma_clear_keeps_invariants(self.market.bids@, k as int);
                }
                self.market.bids.set(k, None);
                previous
            },
            None => None,
        };
        let ghost kept = self.market.bids@;
        let bid_id = self.market.next_bid_id;
        let count = self.market.bids.len();
        assert(bid_id == count);
        let new_bid = Bid {
            bid_id,
            nft_contract_id,
            token_id,
            owner_id: buyer_id,
            fungible_token: ft_token_id,
            price: amount,
            start,
            end,
            origins: match origins {
                Some(o) => o,
                None => Vec::new(),
            },
        };
        let ghost nb = new_bid;
        self.market.bids.push(Some(new_bid));
        self.market.next_bid_id = bid_id + 1;
        proof {
            let t = self.market.bids@;
            let n = kept.len() as int;
            assert(t == kept.push(Some(nb)));
            assert(forall|i: int| 0 <= i < n ==> t[i] == kept[i]);
            assert(forall|i: int|
                0 <= i < n && #[trigger] kept[i] is Some ==> !(kept[i]->0.owner_id@ == nb.owner_id@
                    && kept[i]->0.nft_contract_id@ == nb.nft_contract_id@ && kept[i]->0.token_id@
                    == nb.token_id@)) by {
                assert forall|i: int| 0 <= i < n && #[trigger] kept[i] is Some implies !(
                kept[i]->0.owner_id@ == nb.owner_id@ && kept[i]->0.nft_contract_id@
                    == nb.nft_contract_id@ && kept[i]->0.token_id@ == nb.token_id@) by {
                    if kept[i]->0.owner_id@ == nb.owner_id@ && kept[i]->0.nft_contract_id@
                        == nb.nft_contract_id@ && kept[i]->0.token_id@ == nb.token_id@ {
                        let k = owner_bid_index(old_bids, nb.owner_id@, nb.nft_contract_id@, nb.token_id@);
                        if has_owner_bid(old_bids, nb.owner_id@, nb.nft_contract_id@, nb.token_id@) {
                            assert(kept[i] == old_bids[i]);
                            assert(owner_bid_at(old_bids, i, nb.owner_id@, nb.nft_contract_id@, nb.token_id@));
                            assert(owner_bid_at(old_bids, k, nb.owner_id@, nb.nft_contract_id@, nb.token_id@));
                            assert(old_bids[i] is Some && old_bids[k] is Some);
                        } else {
                            assert(owner_bid_at(old_bids, i, nb.owner_id@, nb.nft_contract_id@, nb.token_id@));
                        }
                    }
                }
            }
            assert(bids_at_their_ids(t)) by {
                assert forall|i: int| 0 <= i < t.len() && #[trigger] t[i] is Some implies t[i]->0.bid_id
                    == i by {
                    if i < n {
                        assert(kept[i] is Some);
                    }
                }
            }
            assert(one_bid_per_owner(t)) by {
                assert forall|i: int, j: int|
                    #![trigger t[i], t[j]]
                    0 <= i < t.len() && 0 <= j < t.len() && t[i] is Some && t[j] is Some
                        && t[i]->0.owner_id@ == t[j]->0.owner_id@ && t[i]->0.nft_contract_id@
                        == t[j]->0.nft_contract_id@ && t[i]->0.token_id@ == t[j]->0.token_id@ implies i
                    == j by {
                    if i < n && j < n {
                        assert(kept[i] is Some && kept[j] is Some);
                    } else if i < n {
                        assert(kept[i] is Some);
                    } else if j < n {
                        assert(kept[j] is Some);
                    }
                }
            }
            lemma_owner_bid_unique(t, n, nb.owner_id@, nb.nft_contract_id@, nb.token_id@);
        }
        Ok((bid_id, replaced))
    }

    /// Removes the live bid `bid_id`, provided it is for this item, currency, owner and price.
    pub fn internal_remove_bid(
        &mut self,
        nft_contract_id: &AccountId,
        ft_token_id: &FungibleTokenId,
        token_id: &TokenId,
        owner_id: &AccountId,
        price: u128,
        bid_id: BidId,
    ) -> (r: Result<Bid, MarketError>)
        requires
            old(self).wf(),
        ensures
            final(self).wf(),
            r is Ok <==> bid_matches(
                old(self).market.bids@,
                bid_id as int,
                nft_contract_id@,
                token_id@,
                ft_token_id@,
                owner_id@,
                price,
            ),
            r is Err ==> r == Err::<Bid, MarketError>(MarketError::BidNotFound) && *final(self)
                == *old(self),
            r matches Ok(b) ==> {
                &&& b.same_as(old(self).market.bids@[bid_id as int]->0)
                &&& final(self).market.bids@ == old(self).market.bids@.update(bid_id as int, None)
                &&& final(self).market.next_bid_id == old(self).market.next_bid_id
                &&& final(self).same_but_bids(old(self))
            },
    {
        if bid_id >= self.market.bids.len() as u128 {
            return Err(MarketError::BidNotFound);
        }
        let k = bid_id as usize;
        let found = match &self.market.bids[k] {
            Some(b) => {
                if b.nft_contract_id == *nft_contract_id && b.token_id == *token_id
                    && b.fungible_token == *ft_token_id && b.owner_id == *owner_id && b.price
                    == price {
                    Some(b.copy())
                } else {
                    None
                }
            },
            None => None,
        };
        match found {
            Some(b) => {
                proof {
                    lemma_clear_keeps_invariants(self.market.bids@, k as int);
                }
                self.market.bids.set(k, None);
                Ok(b)
            },
            None => Err(MarketError::BidNotFound),
        }
    }

    /// The owner `caller` withdraws its bid `bid_id`, at any time.
    pub fn remove_bid(
        &mut self,
        nft_contract_id: AccountId,
        token_id: TokenId,
        ft_token_id: AccountId,
        price: u128,
        bid_id: BidId,
        caller: AccountId,
    ) -> (r: Result<Bid, MarketError>)
        requires
            old(self).wf(),
        ensures
            final(self).wf(),
            r is Ok <==> bid_matches(
                old(self).market.bids@,
                bid_id as int,
                nft_contract_id@,
                token_id@,
                ft_token_id@,
                caller@,
                price,
            ),
            r is Err ==> r == Err::<Bid, MarketError>(MarketError::BidNotFound) && *final(self)
                == *old(self),
            r is Ok ==> final(self).market.bids@ == old(self).market.bids@.update(bid_id as int, None)
                && final(self).same_but_bids(old(self)),
    {
        self.internal_remove_bid(&nft_contract_id, &ft_token_id, &token_id, &caller, price, bid_id)
    }

    /// Anyone removes the bid `bid_id` once its validity window has elapsed at `now`.
    pub fn cancel_bid(
        &mut self,
        nft_contract_id: AccountId,
        token_id: TokenId,
        ft_token_id: AccountId,
        owner_id: AccountId,
        price: u128,
        bid_id: BidId,
        now: u64,
    ) -> (r: Result<Bid, MarketError>)
        requires
            old(self).wf(),
        ensures
            final(self).wf(),
            ({
                let found = bid_matches(
                    old(self).market.bids@,
                    bid_id as int,
                    nft_contract_id@,
                    token_id@,
                    ft_token_id@,
                    owner_id@,
                    price,
                );
                let b = old(self).market.bids@[bid_id as int]->0;
                &&& !found ==> r == Err::<Bid, MarketError>(MarketError::BidNotFound)
                &&& found && b.end is None ==> r == Err::<Bid, MarketError>(
                    MarketError::BidHasNoEnd,
                )
                &&& found && b.end is Some && now < b.end->0 ==> r == Err::<Bid, MarketError>(
                    MarketError::BidNotEnded,
                )
                &&& r is Ok <==> found && b.is_expired(now)
            }),
            r is Err ==> *final(self) == *old(self),
            r is Ok ==> final(self).market.bids@ == old(self).market.bids@.update(bid_id as int, None)
                && final(self).same_but_bids(old(self)),
    {
        if bid_id < self.market.bids.len() as u128 {
            if let Some(b) = &self.market.bids[bid_id as usize] {
                if b.nft_contract_id == nft_contract_id && b.token_id == token_id
                    && b.fungible_token == ft_token_id && b.owner_id == owner_id && b.price == price {
                    match b.end {
                        None => return Err(MarketError::BidHasNoEnd),
                        Some(end) => {
                            if now < end {
                                return Err(MarketError::BidNotEnded);
                            }
                        },
                    }
                }
            }
        }
        self.internal_remove_bid(&nft_contract_id, &ft_token_id, &token_id, &owner_id, price, bid_id)
    }

    /// Removes every bid on an item in a currency whose validity window has elapsed at `now`;
    /// returns their ids in increasing order.
    pub fn cancel_expired_bids(
        &mut self,
        nft_contract_id: AccountId,
        token_id: TokenId,
        ft_token_id: AccountId,
        now: u64,
    ) -> (r: Vec<BidId>)
        requires
            old(self).wf(),
        ensures
            final(self).wf(),
            final(self).same_but_bids(old(self)),
            final(self).market.next_bid_id == old(self).market.next_bid_id,
            final(self).market.bids@.len() == old(self).market.bids@.len(),
            forall|i: int|
                0 <= i < old(self).market.bids@.len() ==> #[trigger] final(self).market.bids@[i]
                    == if bid_expired_at(
                    old(self).market.bids@,
                    i,
                    nft_contract_id@,
                    token_id@,
                    ft_token_id@,
                    now,
                ) {
                    None
                } else {
                    old(self).market.bids@[i]
                },
            forall|j: int|
                0 <= j < r@.len() ==> bid_expired_at(
                    old(self).market.bids@,
                    #[trigger] r@[j] as int,
                    nft_contract_id@,
                    token_id@,
                    ft_token_id@,
                    now,
                ),
            forall|i: int|
                0 <= i < old(self).market.bids@.len() && bid_expired_at(
                    old(self).market.bids@,
                    i,
                    nft_contract_id@,
                    token_id@,
                    ft_token_id@,
                    now,
                ) ==> r@.contains(i as u128),
    {
        let ghost old_bids = self.market.bids@;
        let mut removed: Vec<BidId> = Vec::new();
        let mut i: usize = 0;
        while i < self.market.bids.len()
            invariant
                self.wf(),
                self.same_but_bids(old(self)),
                self.market.next_bid_id == old(self).market.next_bid_id,
                old_bids == old(self).market.bids@,
                self.market.bids@.len() == old_bids.len(),
                i <= old_bids.len(),
                forall|j: int|
                    0 <= j < old_bids.len() ==> #[trigger] self.market.bids@[j] == if j < i
                        && bid_expired_at(
                        old_bids,
                        j,
                        nft_contract_id@,
                        token_id@,
                        ft_token_id@,
                        now,
                    ) {
                        None
                    } else {
                        old_bids[j]
                    },
                forall|j: int|
                    0 <= j < removed@.len() ==> bid_expired_at(
                        old_bids,
                        #[trigger] removed@[j] as int,
                        nft_contract_id@,
                        token_id@,
                        ft_token_id@,
                        now,
                    ),
                forall|j: int|
                    0 <= j < i && bid_expired_at(
                        old_bids,
                        j,
                        nft_contract_id@,
                        token_id@,
                        ft_token_id@,
                        now,
                    ) ==> removed@.contains(j as u128),
            decreases old_bids.len() - i,
        {
            let expired = match &self.market.bids[i] {
                Some(b) => b.nft_contract_id == nft_contract_id && b.token_id == token_id
                    && b.fungible_token == ft_token_id && match b.end {
                    Some(end) => now >= end,
                    None => false,
                },
                None => false,
            };
            if expired {
                proof {
                    lemma_clear_keeps_invariants(self.market.bids@, i as int);
                }
                self.market.bids.set(i, None);
                let ghost before = removed@;
                removed.push(i as u128);
                proof {
                    assert forall|j: int|
                        0 <= j < i && bid_expired_at(
                            old_bids,
                            j,
                            nft_contract_id@,
                            token_id@,
                            ft_token_id@,
                            now,
                        ) implies removed@.contains(j as u128) by {
                        assert(before.contains(j as u128));
                        let w = choose|w: int| 0 <= w < before.len() && before[w] == j as u128;
                        assert(removed@[w] == j as u128);
                    }
                    assert(removed@[before.len() as int] == i as u128);
                }
            }
            i = i + 1;
        }
        removed
    }

    /// The escrow of the bid's owner in `ft` covers the bid's price.
    pub open spec fn spec_is_active(&self, bid: Bid, ft: Seq<char>) -> bool {
        &&& self.escrow().contains_key((bid.owner_id@, ft))
        &&& bid.price <= self.escrow()[(bid.owner_id@, ft)]
    }

    /// Whether the escrow of the bid's owner in `ft` covers the bid's price.
    pub fn is_active(&self, bid: &Bid, ft: &FungibleTokenId) -> (r: bool)
        requires
            self.wf(),
        ensures
            r == self.spec_is_active(*bid, ft@),
    {
        match self.market.bid_accounts.get(&bid.owner_id, ft) {
            Some(balance) => bid.price <= balance,
            None => false,
        }
    }
}

} // verus!
