use vstd::prelude::*;

use crate::table::{
    has_key, keys_unique, lemma_table_index, lemma_table_push, lemma_table_update,
    table_view,
};
use crate::market::{native_token, native_token_name};
use crate::{AccountId, FungibleTokenId, Market, MarketError, Transfer, STORAGE_PER_SALE};

verus! {

/// One custodial balance: what the market holds for `owner_id` in `ft_token_id`.
pub struct BidAccount {
    pub owner_id: AccountId,
    pub ft_token_id: FungibleTokenId,
    pub total_balance: u128,
}

pub open spec fn account_key() -> spec_fn(BidAccount) -> (Seq<char>, Seq<char>) {
    |a: BidAccount| (a.owner_id@, a.ft_token_id@)
}

pub open spec fn account_balance() -> spec_fn(BidAccount) -> u128 {
    |a: BidAccount| a.total_balance
}

/// Balances keyed by (owner, currency), one entry per key.
pub struct BalanceTable {
    pub accounts: Vec<BidAccount>,
}

impl BalanceTable {
    pub open spec fn wf(&self) -> bool {
        keys_unique(self.accounts@, account_key())
    }

    pub open spec fn view(&self) -> Map<(Seq<char>, Seq<char>), u128> {
        table_view(self.accounts@, account_key(), account_balance())
    }

    /// The balance of `owner` in `ft`, zero when there is no entry.
    pub open spec fn balance_or_zero(&self, owner: Seq<char>, ft: Seq<char>) -> u128 {
        match self@.get((owner, ft)) {
            Some(b) => b,
            None => 0,
        }
    }

    /// Whether no two entries share an (owner, currency) key.
    pub fn is_well_formed(&self) -> (r: bool)
        ensures
            r == self.wf(),
    {
        let n = self.accounts.len();
        let mut i: usize = 0;
        while i < n
            invariant
                n == self.accounts@.len(),
                i <= n,
                forall|a: int, b: int|
                    0 <= a < i && a < b < n ==> account_key()(#[trigger] self.accounts@[a])
                        != account_key()(#[trigger] self.accounts@[b]),
            decreases n - i,
        {
            let mut j: usize = i + 1;
            while j < n
                invariant
                    n == self.accounts@.len(),
                    i < n,
                    i + 1 <= j <= n,
                    forall|a: int, b: int|
                        0 <= a < i && a < b < n ==> account_key()(#[trigger] self.accounts@[a])
                            != account_key()(#[trigger] self.accounts@[b]),
                    forall|b: int|
                        i < b < j ==> account_key()(self.accounts@[i as int]) != account_key()(
                            #[trigger] self.accounts@[b],
                        ),
                decreases n - j,
            {
                if self.accounts[i].owner_id == self.accounts[j].owner_id
                    && self.accounts[i].ft_token_id == self.accounts[j].ft_token_id {
                    assert(account_key()(self.accounts@[i as int]) == account_key()(
                        self.accounts@[j as int],
                    ));
                    return false;
                }
                j = j + 1;
            }
            i = i + 1;
        }
        assert forall|a: int, b: int|
            0 <= a < n && 0 <= b < n && #[trigger] account_key()(self.accounts@[a])
                == #[trigger] account_key()(self.accounts@[b]) implies a == b by {
            if a < b {
            } else if b < a {
            }
        }
        true
    }

    pub fn new() -> (r: Self)
        ensures
            r.wf(),
            r@ == Map::<(Seq<char>, Seq<char>), u128>::empty(),
    {
        let r = BalanceTable { accounts: Vec::new() };
        assert(r@ =~= Map::<(Seq<char>, Seq<char>), u128>::empty());
        r
    }

    fn find(&self, owner_id: &AccountId, ft_token_id: &FungibleTokenId) -> (r: Option<usize>)
        requires
            self.wf(),
        ensures
            r matches Some(i) ==> i < self.accounts@.len() && account_key()(self.accounts@[i as int])
                == (owner_id@, ft_token_id@) && self@.contains_key((owner_id@, ft_token_id@))
                && self@[(owner_id@, ft_token_id@)] == self.accounts@[i as int].total_balance,
            r is None ==> !has_key(self.accounts@, account_key(), (owner_id@, ft_token_id@))
                && !self@.contains_key((owner_id@, ft_token_id@)),
    {
        let mut i: usize = 0;
        while i < self.accounts.len()
            invariant
                self.wf(),
                i <= self.accounts@.len(),
                forall|j: int|
                    0 <= j < i ==> account_key()(#[trigger] self.accounts@[j]) != (
                        owner_id@,
                        ft_token_id@,
                    ),
            decreases self.accounts@.len() - i,
        {
            if self.accounts[i].owner_id == *owner_id && self.accounts[i].ft_token_id
                == *ft_token_id {
                proof {
                    lemma_table_index(self.accounts@, account_key(), account_balance(), i as int);
                }
                return Some(i);
            }
            i = i + 1;
        }
        None
    }

    /// The balance of `owner_id` in `ft_token_id`, if the market holds an entry for it.
    pub fn get(&self, owner_id: &AccountId, ft_token_id: &FungibleTokenId) -> (r: Option<u128>)
        requires
            self.wf(),
        ensures
            r == self@.get((owner_id@, ft_token_id@)),
    {
        match self.find(owner_id, ft_token_id) {
            Some(i) => Some(self.accounts[i].total_balance),
            None => None,
        }
    }

    /// Sets the balance of `owner_id` in `ft_token_id` to `amount`.
    pub fn set(&mut self, owner_id: &AccountId, ft_token_id: &FungibleTokenId, amount: u128)
        requires
            old(self).wf(),
        ensures
            final(self).wf(),
            final(self)@ == old(self)@.insert((owner_id@, ft_token_id@), amount),
    {
        match self.find(owner_id, ft_token_id) {
            Some(i) => {
                let entry = BidAccount {
                    owner_id: self.accounts[i].owner_id.clone(),
                    ft_token_id: self.accounts[i].ft_token_id.clone(),
                    total_balance: amount,
                };
                proof {
                    lemma_table_update(
                        self.accounts@,
                        account_key(),
                        account_balance(),
                        i as int,
                        entry,
                    );
                }
                self.accounts.set(i, entry);
            },
            None => {
                let entry = BidAccount {
                    owner_id: owner_id.clone(),
                    ft_token_id: ft_token_id.clone(),
                    total_balance: amount,
                };
                proof {
                    lemma_table_push(self.accounts@, account_key(), account_balance(), entry);
                }
                self.accounts.push(entry);
            },
        }
    }

    /// Credits `amount` to `owner_id` in `ft_token_id`; fails, changing nothing, when the
    /// new balance would not fit in a `u128`.
    pub fn credit(&mut self, owner_id: &AccountId, ft_token_id: &FungibleTokenId, amount: u128) -> (r:
        Result<(), MarketError>)
        requires
            old(self).wf(),
        ensures
            final(self).wf(),
            r is Ok <==> old(self).balance_or_zero(owner_id@, ft_token_id@) + amount <= u128::MAX,
            r is Ok ==> final(self)@ == old(self)@.insert(
                (owner_id@, ft_token_id@),
                (old(self).balance_or_zero(owner_id@, ft_token_id@) + amount) as u128,
            ),
            r is Err ==> r == Err::<(), MarketError>(MarketError::BalanceOverflow) && *final(self)
                == *old(self),
    {
        let previous = match self.get(owner_id, ft_token_id) {
            Some(b) => b,
            None => 0,
        };
        match previous.checked_add(amount) {
            Some(total) => {
                self.set(owner_id, ft_token_id, total);
                Ok(())
            },
            None => Err(MarketError::BalanceOverflow),
        }
    }

    /// Debits `amount` from `owner_id` in `ft_token_id`. Fails, changing nothing, when there is
    /// no entry or the balance is smaller than `amount`.
    pub fn debit(&mut self, owner_id: &AccountId, ft_token_id: &FungibleTokenId, amount: u128) -> (r:
        Result<(), MarketError>)
        requires
            old(self).wf(),
        ensures
            final(self).wf(),
            !old(self)@.contains_key((owner_id@, ft_token_id@)) ==> r == Err::<(), MarketError>(
                MarketError::BidAccountNotFound,
            ),
            old(self)@.contains_key((owner_id@, ft_token_id@)) ==> (r is Ok <==> amount <= old(self)@[(owner_id@, ft_token_id@)]),
            old(self)@.contains_key((owner_id@, ft_token_id@)) && r is Err ==> r == Err::<
                (),
                MarketError,
            >(MarketError::NotEnoughFunds),
            r is Ok ==> final(self)@ == old(self)@.insert(
                (owner_id@, ft_token_id@),
                (old(self)@[(owner_id@, ft_token_id@)] - amount) as u128,
            ),
            r is Err ==> *final(self) == *old(self),
    {
        match self.get(owner_id, ft_token_id) {
            None => Err(MarketError::BidAccountNotFound),
            Some(balance) => {
                if balance < amount {
                    Err(MarketError::NotEnoughFunds)
                } else {
                    self.set(owner_id, ft_token_id, balance - amount);
                    Ok(())
                }
            },
        }
    }
}

/// The currency named by an optional one: the native currency when none.
pub open spec fn currency_or_native(ft: Option<AccountId>) -> Seq<char> {
    match ft {
        Some(f) => f@,
        None => native_token_name(),
    }
}

impl Market {
    /// Credits `attached` to the escrow of `account_id` (default `caller`) in `ft_token_id`
    /// (default the native currency).
    pub fn bid_deposit(
        &mut self,
        account_id: Option<AccountId>,
        ft_token_id: Option<AccountId>,
        caller: AccountId,
        attached: u128,
    ) -> (r: Result<(), MarketError>)
        requires
            old(self).wf(),
        ensures
            final(self).wf(),
            ({
                let owner = match account_id {
                    Some(a) => a@,
                    None => caller@,
                };
                let ft = currency_or_native(ft_token_id);
                let held = old(self).market.bid_accounts.balance_or_zero(owner, ft);
                &&& r is Ok <==> held + attached <= u128::MAX
                &&& r is Ok ==> final(self).escrow() == old(self).escrow().insert(
                    (owner, ft),
                    (held + attached) as u128,
                )
                &&& r is Err ==> r == Err::<(), MarketError>(MarketError::BalanceOverflow)
                    && *final(self) == *old(self)
            }),
            final(self).same_but_escrow(old(self)),
    {
        let owner_id = match account_id {
            Some(a) => a,
            None => caller,
        };
        let ft = match ft_token_id {
            Some(f) => f,
            None => native_token(),
        };
        self.market.bid_accounts.credit(&owner_id, &ft, attached)
    }

    /// The escrow of `account_id` in `ft_token_id` (default the native currency).
    pub fn view_deposit(&self, ft_token_id: Option<AccountId>, account_id: AccountId) -> (r: Result<
        u128,
        MarketError,
    >)
        requires
            self.wf(),
        ensures
            ({
                let key = (account_id@, currency_or_native(ft_token_id));
                &&& r is Ok <==> self.escrow().contains_key(key)
                &&& r matches Ok(b) ==> b == self.escrow()[key]
                &&& r is Err ==> r == Err::<u128, MarketError>(MarketError::BidAccountNotFound)
            }),
    {
        let ft = match ft_token_id {
            Some(f) => f,
            None => native_token(),
        };
        match self.market.bid_accounts.get(&account_id, &ft) {
            Some(b) => Ok(b),
            None => Err(MarketError::BidAccountNotFound),
        }
    }

    /// The escrow of `account_id` in `ft_token_id` (default the native currency).
    pub fn get_total_bid_balance(&self, ft_token_id: Option<AccountId>, account_id: AccountId) -> (r:
        Result<u128, MarketError>)
        requires
            self.wf(),
        ensures
            ({
                let key = (account_id@, currency_or_native(ft_token_id));
                &&& r is Ok <==> self.escrow().contains_key(key)
                &&& r matches Ok(b) ==> b == self.escrow()[key]
            }),
    {
        self.view_deposit(ft_token_id, account_id)
    }

    /// `caller` withdraws `amount` (default all of it) of its escrow in `ft_token_id` (default
    /// the native currency); the returned transfer pays it out.
    pub fn bid_withdraw(
        &mut self,
        amount: Option<u128>,
        ft_token_id: Option<AccountId>,
        caller: AccountId,
    ) -> (r: Result<Transfer, MarketError>)
        requires
            old(self).wf(),
        ensures
            final(self).wf(),
            r is Err ==> *final(self) == *old(self),
            final(self).same_but_escrow(old(self)),
            ({
                let key = (caller@, currency_or_native(ft_token_id));
                let held = old(self).escrow()[key];
                let asked = match amount {
                    Some(a) => a,
                    None => held,
                };
                &&& !old(self).escrow().contains_key(key) ==> r == Err::<Transfer, MarketError>(
                    MarketError::BidAccountNotFound,
                )
                &&& old(self).escrow().contains_key(key) && asked > held ==> r == Err::<
                    Transfer,
                    MarketError,
                >(MarketError::NotEnoughFunds)
                &&& r is Ok <==> old(self).escrow().contains_key(key) && asked <= held
                &&& r matches Ok(t) ==> t.receiver_id == caller && t.amount == asked
                    && t.ft_token_id@ == key.1 && final(self).escrow() == old(self).escrow().insert(
                    key,
                    (held - asked) as u128,
                )
            }),
    {
        let ft = match ft_token_id {
            Some(f) => f,
            None => native_token(),
        };
        let balance = match self.market.bid_accounts.get(&caller, &ft) {
            Some(b) => b,
            None => return Err(MarketError::BidAccountNotFound),
        };
        let amount = match amount {
            Some(a) => a,
            None => balance,
        };
        if amount > balance {
            return Err(MarketError::NotEnoughFunds);
        }
        self.market.bid_accounts.set(&caller, &ft, balance - amount);
        Ok(self.refund_bid(ft, caller, amount))
    }

    /// Adds `deposit` to the storage rent paid by `account_id` (default `caller`); a deposit
    /// must cover at least one listing.
    pub fn storage_deposit(
        &mut self,
        account_id: Option<AccountId>,
        caller: AccountId,
        deposit: u128,
    ) -> (r: Result<(), MarketError>)
        requires
            old(self).wf(),
        ensures
            final(self).wf(),
            r is Err ==> *final(self) == *old(self),
            ({
                let owner = match account_id {
                    Some(a) => a@,
                    None => caller@,
                };
                let paid = old(self).storage_paid(owner);
                &&& deposit < STORAGE_PER_SALE ==> r == Err::<(), MarketError>(
                    MarketError::StorageDepositTooSmall,
                )
                &&& deposit >= STORAGE_PER_SALE && paid + deposit > u128::MAX ==> r == Err::<
                    (),
                    MarketError,
                >(MarketError::BalanceOverflow)
                &&& r is Ok <==> deposit >= STORAGE_PER_SALE && paid + deposit <= u128::MAX
                &&& r is Ok ==> final(self).market.storage_deposits@ == old(self).market.storage_deposits@.insert((owner, native_token_name()), (paid + deposit) as u128)
            }),
            final(self).market.sales == old(self).market.sales,
            final(self).market.bid_accounts == old(self).market.bid_accounts,
            final(self).non_fungible_token_account_ids == old(self).non_fungible_token_account_ids,
            final(self).market.owner_id == old(self).market.owner_id,
            final(self).market.ft_token_ids == old(self).market.ft_token_ids,
            final(self).same_bids(old(self)),
            final(self).same_auctions(old(self)),
    {
        if deposit < STORAGE_PER_SALE {
            return Err(MarketError::StorageDepositTooSmall);
        }
        let owner_id = match account_id {
            Some(a) => a,
            None => caller,
        };
        self.market.storage_deposits.credit(&owner_id, &native_token(), deposit)
    }

    /// `caller` takes back the storage rent that its listings do not occupy; the returned
    /// transfer, if any, pays it out.
    pub fn storage_withdraw(&mut self, caller: AccountId) -> (r: Result<Option<Transfer>, MarketError>)
        requires
            old(self).wf(),
        ensures
            final(self).wf(),
            r is Err ==> *final(self) == *old(self),
            ({
                let paid = old(self).storage_paid(caller@);
                let occupied = old(self).owner_sales_count(caller@) * STORAGE_PER_SALE;
                &&& r is Ok <==> occupied <= paid
                &&& r is Err ==> r == Err::<Option<Transfer>, MarketError>(
                    MarketError::InsufficientStorage,
                )
                &&& r matches Ok(t) ==> final(self).market.storage_deposits@ == old(self).market.storage_deposits@.insert((caller@, native_token_name()), occupied as u128)
                    && (t is Some <==> paid > occupied) && (t matches Some(tr) ==> tr.receiver_id
                    == caller && tr.amount == paid - occupied && tr.ft_token_id@ == native_token_name())
            }),
            final(self).market.sales == old(self).market.sales,
            final(self).market.bid_accounts == old(self).market.bid_accounts,
            final(self).non_fungible_token_account_ids == old(self).non_fungible_token_account_ids,
            final(self).market.owner_id == old(self).market.owner_id,
            final(self).market.ft_token_ids == old(self).market.ft_token_ids,
            final(self).same_bids(old(self)),
            final(self).same_auctions(old(self)),
    {
        let paid = self.get_storage_paid(&caller);
        let listed = self.count_sales_by_owner(&caller);
        let occupied = match (listed as u128).checked_mul(STORAGE_PER_SALE) {
            Some(o) => o,
            None => return Err(MarketError::InsufficientStorage),
        };
        if occupied > paid {
            return Err(MarketError::InsufficientStorage);
        }
        let near = native_token();
        self.market.storage_deposits.set(&caller, &near, occupied);
        if paid > occupied {
            Ok(Some(Transfer { receiver_id: caller, ft_token_id: near, amount: paid - occupied }))
        } else {
            Ok(None)
        }
    }
}

} // verus!
