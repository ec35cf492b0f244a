use vstd::prelude::*;

use crate::fee::{calculate_origins, origins_total, owner_net, payout_is_valid, spec_payout_valid, spec_split_payout, split_payout};
use crate::bid::copy_origins;
use crate::{AccountId, FungibleTokenId, Market, Origins, Sale, Transfer, MAX_ORIGINS, PROTOCOL_FEE};

verus! {

/// The referral tables sent with a transfer request: the buyer's and the seller's, each with
/// the protocol principal added.
pub struct Fees {
    pub buyer: Origins,
    pub seller: Origins,
}

/// A sale that has left the listing table and waits for the asset registry to transfer the
/// item and report its payout table. It is consumed by exactly one `resolve_purchase`.
pub struct PendingPurchase {
    pub sale: Sale,
    pub buyer_id: AccountId,
    pub ft_token_id: FungibleTokenId,
    pub price: u128,
    pub fees: Fees,
}

/// The outcome of a settlement callback: the payments to make, and what was not disbursed.
pub struct Settlement {
    pub undisbursed: u128,
    pub transfers: Vec<Transfer>,
}

/// The reported payout table lets a sale at `price` be disbursed: the transfer succeeded, the
/// table is valid, the seller's referral table is under the cap, and the owner's share covers
/// the protocol fee and the referral shares.
pub open spec fn settles(
    price: int,
    payout: Option<Vec<(AccountId, u128)>>,
    owner: Seq<char>,
    origins: Seq<(AccountId, u32)>,
) -> bool {
    &&& payout is Some
    &&& spec_payout_valid(price, payout->0@)
    &&& origins_total(origins) < MAX_ORIGINS
    &&& owner_net(price, payout->0@, owner, origins) >= 0
}

/// `transfers` pays each of `amounts`, in order, in currency `ft`.
pub open spec fn pays(
    transfers: Seq<Transfer>,
    amounts: Seq<(AccountId, u128)>,
    ft: FungibleTokenId,
) -> bool {
    &&& transfers.len() == amounts.len()
    &&& forall|i: int|
        0 <= i < transfers.len() ==> (#[trigger] transfers[i]).receiver_id == amounts[i].0
            && transfers[i].amount == amounts[i].1 && transfers[i].ft_token_id == ft
}

/// The payments that settle a sale at `price`, or `None` when the settlement must be
/// refunded instead.
pub fn disburse(
    price: u128,
    payout: Option<Vec<(AccountId, u128)>>,
    owner_id: &AccountId,
    origins: &Origins,
    ft_token_id: &FungibleTokenId,
) -> (r: Option<Vec<Transfer>>)
    ensures
        r is Some <==> settles(price as int, payout, owner_id@, origins@),
        r matches Some(ts) ==> pays(
            ts@,
            spec_split_payout(price as int, payout->0@, *owner_id, origins@),
            *ft_token_id,
        ),
{
    let table = match payout {
        Some(t) => t,
        None => return None,
    };
    if !payout_is_valid(price, &table) {
        return None;
    }
    if calculate_origins(origins) >= MAX_ORIGINS {
        return None;
    }
    let split = match split_payout(price, &table, owner_id, origins) {
        Some(s) => s,
        None => return None,
    };
    let mut transfers: Vec<Transfer> = Vec::new();
    let mut i: usize = 0;
    while i < split.len()
        invariant
            i <= split@.len(),
            transfers@.len() == i,
            forall|j: int|
                0 <= j < i ==> (#[trigger] transfers@[j]).receiver_id == split@[j].0
                    && transfers@[j].amount == split@[j].1 && transfers@[j].ft_token_id
                    == *ft_token_id,
        decreases split@.len() - i,
    {
        transfers.push(
            Transfer {
                receiver_id: split[i].0.clone(),
                ft_token_id: ft_token_id.clone(),
                amount: split[i].1,
            },
        );
        i = i + 1;
    }
    Some(transfers)
}

/// Settling a sale is all or nothing for the buyer. Take the market before the owner accepted
/// a bid of `buyer` at `price` in `ft` (`before`), after the acceptance (`accepted`), and after
/// the settlement callback (`settled_market`). The sale is gone once and for all, and the
/// buyer's escrow ends up debited by the full price when the payout table settled the sale,
/// and back where it was when it did not.
pub proof fn lemma_settlement_atomicity(
    before: Market,
    accepted: Market,
    settled_market: Market,
    contract: Seq<char>,
    token: Seq<char>,
    buyer: Seq<char>,
    ft: Seq<char>,
    price: u128,
    settled: bool,
)
    requires
        before.escrow().contains_key((buyer, ft)),
        price <= before.escrow()[(buyer, ft)],
        accepted.sales_view() == before.sales_view().remove((contract, token)),
        accepted.escrow() == before.escrow().insert(
            (buyer, ft),
            (before.escrow()[(buyer, ft)] - price) as u128,
        ),
        settled_market.market.sales == accepted.market.sales,
        settled ==> settled_market.escrow() == accepted.escrow(),
        !settled ==> settled_market.escrow() == accepted.escrow().insert(
            (buyer, ft),
            (accepted.market.bid_accounts.balance_or_zero(buyer, ft) + price) as u128,
        ),
    ensures
        !settled_market.sales_view().contains_key((contract, token)),
        settled ==> settled_market.escrow()[(buyer, ft)] == before.escrow()[(buyer, ft)] - price,
        !settled ==> settled_market.escrow()[(buyer, ft)] == before.escrow()[(buyer, ft)],
        forall|k: (Seq<char>, Seq<char>)|
            k != (buyer, ft) ==> settled_market.escrow().get(k) == before.escrow().get(k),
{
    assert(accepted.market.bid_accounts.balance_or_zero(buyer, ft) == before.escrow()[(buyer, ft)]
        - price);
}

impl Market {
    /// A referral table with the market operator's protocol fee added, as the token contract
    /// receives it with a transfer request.
    pub fn with_protocol_fee(&self, origins: &Origins) -> (r: Origins)
        ensures
            r@ == origins@.push((self.market.owner_id, PROTOCOL_FEE as u32)),
    {
        let mut r = copy_origins(origins);
        r.push((self.market.owner_id.clone(), PROTOCOL_FEE as u32));
        r
    }

    /// The payment that gives `price` of `bid_ft` back to `owner_id`.
    pub fn refund_bid(&self, bid_ft: FungibleTokenId, owner_id: AccountId, price: u128) -> (r:
        Transfer)
        ensures
            r.receiver_id == owner_id,
            r.ft_token_id == bid_ft,
            r.amount == price,
    {
        Transfer { receiver_id: owner_id, ft_token_id: bid_ft, amount: price }
    }

    /// Settlement callback of a sale. When the payout table settles the sale, pays the
    /// royalties, the referral shares and the owner, and reports nothing undisbursed.
    /// Otherwise the full price goes back to the buyer's escrow (or straight to the buyer
    /// when that balance is full) and is reported undisbursed.
    pub fn resolve_purchase(
        &mut self,
        ft_token_id: AccountId,
        buyer_id: AccountId,
        sale: Sale,
        price: u128,
        payout: Option<Vec<(AccountId, u128)>>,
    ) -> (r: Settlement)
        requires
            old(self).wf(),
        ensures
            final(self).wf(),
            final(self).same_but_escrow(old(self)),
            settles(price as int, payout, sale.owner_id@, sale.origins@) ==> {
                &&& r.undisbursed == 0
                &&& pays(
                    r.transfers@,
                    spec_split_payout(price as int, payout->0@, sale.owner_id, sale.origins@),
                    ft_token_id,
                )
                &&& final(self).escrow() == old(self).escrow()
            },
            !settles(price as int, payout, sale.owner_id@, sale.origins@) ==> {
                let held = old(self).market.bid_accounts.balance_or_zero(buyer_id@, ft_token_id@);
                &&& r.undisbursed == price
                &&& held + price <= u128::MAX ==> r.transfers@.len() == 0
                    && final(self).escrow() == old(self).escrow().insert(
                    (buyer_id@, ft_token_id@),
                    (held + price) as u128,
                )
                &&& held + price > u128::MAX ==> final(self).escrow() == old(self).escrow()
                    && r.transfers@.len() == 1 && r.transfers@[0].receiver_id == buyer_id
                    && r.transfers@[0].amount == price && r.transfers@[0].ft_token_id
                    == ft_token_id
            },
    {
        match disburse(price, payout, &sale.owner_id, &sale.origins, &ft_token_id) {
            Some(transfers) => Settlement { undisbursed: 0, transfers },
            None => {
                let mut transfers: Vec<Transfer> = Vec::new();
                match self.market.bid_accounts.credit(&buyer_id, &ft_token_id, price) {
                    Ok(()) => {},
                    Err(_) => {
                        transfers.push(self.refund_bid(ft_token_id, buyer_id, price));
                    },
                }
                Settlement { undisbursed: price, transfers }
            },
        }
    }
}

} // verus!
