use vstd::prelude::*;

use crate::auction::Auction;
use crate::escrow::BalanceTable;
use crate::sale::{sale_itself, sale_key, Sale};
use crate::table::{keys_unique, table_view};
use crate::{AccountId, Bid, FungibleTokenId};

verus! {

/// Storage rent that one listing occupies, in the native currency.
pub const STORAGE_PER_SALE: u128 = 10_000_000_000_000_000_000_000;

/// The name of the native currency.
pub open spec fn native_token_name() -> Seq<char> {
    seq!['n', 'e', 'a', 'r']
}

/// The native currency's identifier.
pub fn native_token() -> (r: FungibleTokenId)
    ensures
        r@ == native_token_name(),
{
    proof {
        reveal_strlit("near");
    }
    let r = "near".to_owned();
    assert(r@ =~= native_token_name());
    r
}

/// The market's ledgers.
pub struct MarketSales {
    /// The market operator, who receives the protocol fee.
    pub owner_id: AccountId,
    /// Offer listings, one per item.
    pub sales: Vec<Sale>,
    /// Accepted currencies.
    pub ft_token_ids: Vec<FungibleTokenId>,
    /// Storage rent paid by each owner, in the native currency.
    pub storage_deposits: BalanceTable,
    /// Every bid ever placed, at the position of its id; removed bids are `None`.
    pub bids: Vec<Option<Bid>>,
    pub next_bid_id: u128,
    /// Escrow balances that back bids.
    pub bid_accounts: BalanceTable,
    /// Every auction ever created, at the position of its id; closed auctions are `None`.
    pub auctions: Vec<Option<Auction>>,
    pub next_auction_id: u128,
}

/// The marketplace.
pub struct Market {
    pub non_fungible_token_account_ids: Vec<AccountId>,
    pub market: MarketSales,
}

/// Bid `i` is live, belongs to `owner` and is for the item `token` of `contract`.
pub open spec fn owner_bid_at(
    bids: Seq<Option<Bid>>,
    i: int,
    owner: Seq<char>,
    contract: Seq<char>,
    token: Seq<char>,
) -> bool {
    &&& 0 <= i < bids.len()
    &&& bids[i] is Some
    &&& bids[i]->0.owner_id@ == owner
    &&& bids[i]->0.is_for(contract, token)
}

/// Every live bid sits at the position of its id.
pub open spec fn bids_at_their_ids(bids: Seq<Option<Bid>>) -> bool {
    forall|i: int| 0 <= i < bids.len() && #[trigger] bids[i] is Some ==> bids[i]->0.bid_id == i
}

/// An owner has at most one live bid per listed item, whatever its currency.
pub open spec fn one_bid_per_owner(bids: Seq<Option<Bid>>) -> bool {
    forall|i: int, j: int|
        #![trigger bids[i], bids[j]]
        0 <= i < bids.len() && 0 <= j < bids.len() && bids[i] is Some && bids[j] is Some
            && bids[i]->0.owner_id@ == bids[j]->0.owner_id@ && bids[i]->0.nft_contract_id@
            == bids[j]->0.nft_contract_id@ && bids[i]->0.token_id@ == bids[j]->0.token_id@ ==> i
            == j
}

impl Market {
    /// Only the bid ledger may differ between `self` and `other`.
    pub open spec fn same_but_bids(&self, other: &Market) -> bool {
        &&& self.non_fungible_token_account_ids == other.non_fungible_token_account_ids
        &&& self.market.owner_id == other.market.owner_id
        &&& self.market.sales == other.market.sales
        &&& self.market.ft_token_ids == other.market.ft_token_ids
        &&& self.market.storage_deposits == other.market.storage_deposits
        &&& self.market.bid_accounts == other.market.bid_accounts
        &&& self.market.auctions == other.market.auctions
        &&& self.market.next_auction_id == other.market.next_auction_id
    }

    /// Only the escrow ledger may differ between `self` and `other`.
    pub open spec fn same_but_escrow(&self, other: &Market) -> bool {
        &&& self.non_fungible_token_account_ids == other.non_fungible_token_account_ids
        &&& self.market.owner_id == other.market.owner_id
        &&& self.market.sales == other.market.sales
        &&& self.market.ft_token_ids == other.market.ft_token_ids
        &&& self.market.storage_deposits == other.market.storage_deposits
        &&& self.market.bids == other.market.bids
        &&& self.market.next_bid_id == other.market.next_bid_id
        &&& self.market.auctions == other.market.auctions
        &&& self.market.next_auction_id == other.market.next_auction_id
    }

    /// The configuration and the storage ledger are the same in `self` and `other`.
    pub open spec fn same_config(&self, other: &Market) -> bool {
        &&& self.non_fungible_token_account_ids == other.non_fungible_token_account_ids
        &&& self.market.owner_id == other.market.owner_id
        &&& self.market.ft_token_ids == other.market.ft_token_ids
        &&& self.market.storage_deposits == other.market.storage_deposits
    }

    /// The bid ledger is the same in `self` and `other`.
    pub open spec fn same_bids(&self, other: &Market) -> bool {
        &&& self.market.bids == other.market.bids
        &&& self.market.next_bid_id == other.market.next_bid_id
    }

    /// The auction table is the same in `self` and `other`.
    pub open spec fn same_auctions(&self, other: &Market) -> bool {
        &&& self.market.auctions == other.market.auctions
        &&& self.market.next_auction_id == other.market.next_auction_id
    }

    pub open spec fn wf(&self) -> bool {
        &&& self.market.storage_deposits.wf()
        &&& self.market.bid_accounts.wf()
        &&& keys_unique(self.market.sales@, sale_key())
        &&& self.market.next_bid_id == self.market.bids@.len()
        &&& self.market.next_auction_id == self.market.auctions@.len()
        &&& bids_at_their_ids(self.market.bids@)
        &&& one_bid_per_owner(self.market.bids@)
    }

    /// The live bid with id `id`.
    pub open spec fn spec_bid(&self, id: int) -> Option<Bid> {
        if 0 <= id < self.market.bids@.len() {
            self.market.bids@[id]
        } else {
            None
        }
    }

    /// The open auction with id `id`.
    pub open spec fn spec_auction(&self, id: int) -> Option<Auction> {
        if 0 <= id < self.market.auctions@.len() {
            self.market.auctions@[id]
        } else {
            None
        }
    }

    /// Sales by (collection, item).
    pub open spec fn sales_view(&self) -> Map<(Seq<char>, Seq<char>), Sale> {
        table_view(self.market.sales@, sale_key(), sale_itself())
    }

    /// Escrow balances by (owner, currency).
    pub open spec fn escrow(&self) -> Map<(Seq<char>, Seq<char>), u128> {
        self.market.bid_accounts@
    }

    /// The market accepts currency `ft`.
    pub open spec fn supports(&self, ft: Seq<char>) -> bool {
        exists|i: int|
            0 <= i < self.market.ft_token_ids@.len() && #[trigger] self.market.ft_token_ids@[i]@
                == ft
    }

    /// A market that accepts the native currency only, with empty ledgers.
    pub fn new(nft_ids: Vec<AccountId>, owner_id: AccountId) -> (r: Self)
        ensures
            r.wf(),
            r.market.owner_id == owner_id,
            r.market.ft_token_ids@.len() == 1,
            r.market.ft_token_ids@[0]@ == native_token_name(),
            r.market.sales@.len() == 0,
            r.market.bids@.len() == 0,
            r.market.auctions@.len() == 0,
            r.escrow() == Map::<(Seq<char>, Seq<char>), u128>::empty(),
            r.market.storage_deposits@ == Map::<(Seq<char>, Seq<char>), u128>::empty(),
            r.non_fungible_token_account_ids@ == nft_ids@,
    {
        let mut tokens: Vec<FungibleTokenId> = Vec::new();
        tokens.push(native_token());
        let market = MarketSales {
            owner_id,
            sales: Vec::new(),
            ft_token_ids: tokens,
            storage_deposits: BalanceTable::new(),
            bids: Vec::new(),
            next_bid_id: 0,
            bid_accounts: BalanceTable::new(),
            auctions: Vec::new(),
            next_auction_id: 0,
        };
        Market { non_fungible_token_account_ids: nft_ids, market }
    }

    /// Storage rent that one listing occupies.
    pub fn storage_amount(&self) -> (r: u128)
        ensures
            r == STORAGE_PER_SALE,
    {
        STORAGE_PER_SALE
    }

    /// Whether the market accepts currency `ft`.
    pub fn is_supported(&self, ft: &FungibleTokenId) -> (r: bool)
        ensures
            r == self.supports(ft@),
    {
        let mut i: usize = 0;
        while i < self.market.ft_token_ids.len()
            invariant
                i <= self.market.ft_token_ids@.len(),
                forall|j: int| 0 <= j < i ==> #[trigger] self.market.ft_token_ids@[j]@ != ft@,
            decreases self.market.ft_token_ids@.len() - i,
        {
            if self.market.ft_token_ids[i] == *ft {
                return true;
            }
            i = i + 1;
        }
        false
    }

    /// Whether no two sales are for the same item.
    fn sale_keys_unique(&self) -> (r: bool)
        ensures
            r == keys_unique(self.market.sales@, sale_key()),
    {
        let n = self.market.sales.len();
        let mut i: usize = 0;
        while i < n
            invariant
                n == self.market.sales@.len(),
                i <= n,
                forall|a: int, b: int|
                    0 <= a < i && a < b < n ==> sale_key()(#[trigger] self.market.sales@[a]) != sale_key()(
                        #[trigger] self.market.sales@[b],
                    ),
            decreases n - i,
        {
            let mut j: usize = i + 1;
            while j < n
                invariant
                    n == self.market.sales@.len(),
                    i < n,
                    i + 1 <= j <= n,
                    forall|a: int, b: int|
                        0 <= a < i && a < b < n ==> sale_key()(#[trigger] self.market.sales@[a]) != sale_key()(
                            #[trigger] self.market.sales@[b],
                        ),
                    forall|b: int|
                        i < b < j ==> sale_key()(self.market.sales@[i as int]) != sale_key()(#[trigger] self.market.sales@[b]),
                decreases n - j,
            {
                if self.market.sales[i].nft_contract_id == self.market.sales[j].nft_contract_id && self.market.sales[i].token_id
                    == self.market.sales[j].token_id {
                    assert(sale_key()(self.market.sales@[i as int]) == sale_key()(self.market.sales@[j as int]));
                    return false;
                }
                j = j + 1;
            }
            i = i + 1;
        }
        assert forall|a: int, b: int|
            0 <= a < n && 0 <= b < n && #[trigger] sale_key()(self.market.sales@[a]) == #[trigger] sale_key()(
                self.market.sales@[b],
            ) implies a == b by {
            if a < b {
            } else if b < a {
            }
        }
        true
    }

    /// Whether every live bid sits at the position of its id and no owner has two live bids
    /// on one item.
    fn bids_consistent(&self) -> (r: bool)
        ensures
            r == (bids_at_their_ids(self.market.bids@) && one_bid_per_owner(self.market.bids@)),
    {
        let n = self.market.bids.len();
        let mut i: usize = 0;
        while i < n
            invariant
                n == self.market.bids@.len(),
                i <= n,
                forall|a: int| 0 <= a < i && #[trigger] self.market.bids@[a] is Some ==> self.market.bids@[a]->0.bid_id == a,
                forall|a: int, b: int|
                    #![trigger self.market.bids@[a], self.market.bids@[b]]
                    0 <= a < i && a < b < n && self.market.bids@[a] is Some && self.market.bids@[b] is Some ==> !(
                    self.market.bids@[a]->0.owner_id@ == self.market.bids@[b]->0.owner_id@ && self.market.bids@[a]->0.nft_contract_id@
                        == self.market.bids@[b]->0.nft_contract_id@ && self.market.bids@[a]->0.token_id@
                        == self.market.bids@[b]->0.token_id@),
            decreases n - i,
        {
            if let Some(x) = &self.market.bids[i] {
                if x.bid_id != i as u128 {
                    assert(self.market.bids@[i as int] is Some);
                    return false;
                }
                let mut j: usize = i + 1;
                while j < n
                    invariant
                        n == self.market.bids@.len(),
                        i < n,
                        i + 1 <= j <= n,
                        self.market.bids@[i as int] == Some(*x),
                        forall|b: int|
                            #![trigger self.market.bids@[b]]
                            i < b < j && self.market.bids@[b] is Some ==> !(x.owner_id@ == self.market.bids@[b]->0.owner_id@
                                && x.nft_contract_id@ == self.market.bids@[b]->0.nft_contract_id@ && x.token_id@
                                == self.market.bids@[b]->0.token_id@),
                    decreases n - j,
                {
                    if let Some(y) = &self.market.bids[j] {
                        if x.owner_id == y.owner_id && x.nft_contract_id == y.nft_contract_id
                            && x.token_id == y.token_id {
                            assert(self.market.bids@[i as int] is Some && self.market.bids@[j as int] is Some);
                            return false;
                        }
                    }
                    j = j + 1;
                }
            }
            i = i + 1;
        }
        assert forall|a: int, b: int|
            #![trigger self.market.bids@[a], self.market.bids@[b]]
            0 <= a < n && 0 <= b < n && self.market.bids@[a] is Some && self.market.bids@[b] is Some && self.market.bids@[a]->0.owner_id@
                == self.market.bids@[b]->0.owner_id@ && self.market.bids@[a]->0.nft_contract_id@
                == self.market.bids@[b]->0.nft_contract_id@ && self.market.bids@[a]->0.token_id@ == self.market.bids@[b]->0.token_id@ implies a
            == b by {
            if a < b {
            } else if b < a {
            }
        }
        true
    }

    /// Whether the market satisfies its invariant. A market kept outside the library (in
    /// storage, say) should be checked with this before it is used again.
    pub fn is_well_formed(&self) -> (r: bool)
        ensures
            r == self.wf(),
    {
        self.market.storage_deposits.is_well_formed() && self.market.bid_accounts.is_well_formed()
            && self.sale_keys_unique() && self.market.next_bid_id == self.market.bids.len() as u128
            && self.market.next_auction_id == self.market.auctions.len() as u128
            && self.bids_consistent()
    }
}

} // verus!
