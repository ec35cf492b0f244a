use vstd::prelude::*;

use crate::auction::{Auction, AuctionJson, EXTENSION_DURATION, MAX_DURATION};
use crate::bids::{opt_origins_seq, opt_origins_total};
use crate::fee::calculate_origins;
use crate::market::native_token_name;
use crate::market_core::AuctionArgs;
use crate::settlement::{disburse, pays, settles, Settlement};
use crate::fee::spec_split_payout;
use crate::{AccountId, Bid, FungibleTokenId, Market, MarketError, Origins, TokenId, Transfer, MAX_ORIGINS};

verus! {

/// The currency named by a token type: the type itself, or the native currency when none.
pub open spec fn token_type_currency(token_type: Option<String>) -> Seq<char> {
    match token_type {
        Some(t) => t@,
        None => native_token_name(),
    }
}

/// `b` keeps every term of `a` but the current bid and the end time.
pub open spec fn same_terms(a: Auction, b: Auction) -> bool {
    &&& b.owner_id == a.owner_id
    &&& b.approval_id == a.approval_id
    &&& b.nft_contract_id == a.nft_contract_id
    &&& b.token_id == a.token_id
    &&& b.created_at == a.created_at
    &&& b.ft_token_id == a.ft_token_id
    &&& b.minimal_step == a.minimal_step
    &&& b.start_price == a.start_price
    &&& b.buy_out_price == a.buy_out_price
    &&& b.start == a.start
    &&& b.origins@ == a.origins@
}

/// A bid of `amount` triggers the buyout of `a`.
pub open spec fn buys_out(a: Auction, amount: u128) -> bool {
    a.buy_out_price matches Some(p) && p <= amount
}

impl Market {
    /// Some open auction is for the item `token` of `contract`.
    pub open spec fn has_auction(&self, contract: Seq<char>, token: Seq<char>) -> bool {
        exists|i: int|
            0 <= i < self.market.auctions@.len() && #[trigger] self.market.auctions@[i] is Some
                && self.market.auctions@[i]->0.nft_contract_id@ == contract
                && self.market.auctions@[i]->0.token_id@ == token
    }

    /// Whether some open auction is for the item `token_id` of `nft_contract_id`.
    pub(crate) fn has_auction_for(&self, nft_contract_id: &AccountId, token_id: &TokenId) -> (r: bool)
        ensures
            r == self.has_auction(nft_contract_id@, token_id@),
    {
        let mut i: usize = 0;
        while i < self.market.auctions.len()
            invariant
                i <= self.market.auctions@.len(),
                forall|j: int|
                    0 <= j < i ==> !(#[trigger] self.market.auctions@[j] is Some
                        && self.market.auctions@[j]->0.nft_contract_id@ == nft_contract_id@
                        && self.market.auctions@[j]->0.token_id@ == token_id@),
            decreases self.market.auctions@.len() - i,
        {
            if let Some(a) = &self.market.auctions[i] {
                if a.nft_contract_id == *nft_contract_id && a.token_id == *token_id {
                    return true;
                }
            }
            i = i + 1;
        }
        false
    }

    /// The currency a token type names, if the market accepts it.
    pub fn token_type_to_ft_token_type(&self, token_type: Option<String>) -> (r: Result<
        FungibleTokenId,
        MarketError,
    >)
        ensures
            r is Ok <==> self.supports(token_type_currency(token_type)),
            r is Err ==> r == Err::<FungibleTokenId, MarketError>(MarketError::TokenNotSupported),
            r matches Ok(ft) ==> ft@ == token_type_currency(token_type),
    {
        let ft = match token_type {
            Some(t) => t,
            None => crate::market::native_token(),
        };
        if self.is_supported(&ft) {
            Ok(ft)
        } else {
            Err(MarketError::TokenNotSupported)
        }
    }

    /// What a reader sees of an auction.
    pub fn json_from_auction(&self, auction: Auction) -> (r: AuctionJson)
        ensures
            auction.shown_by(r),
    {
        auction.to_json()
    }

    /// The position of the open auction `auction_id`.
    fn auction_index(&self, auction_id: u128) -> (r: Option<usize>)
        ensures
            r matches Some(i) ==> i == auction_id && i < self.market.auctions@.len()
                && self.market.auctions@[i as int] is Some,
            r is None <==> self.spec_auction(auction_id as int) is None,
    {
        if auction_id < self.market.auctions.len() as u128 {
            let i = auction_id as usize;
            if self.market.auctions[i].is_some() {
                return Some(i);
            }
        }
        None
    }

    /// `start_auction` accepts these arguments at `now`.
    pub open spec fn can_start_auction(
        &self,
        args: AuctionArgs,
        token_id: TokenId,
        nft_contract_id: AccountId,
        now: u64,
    ) -> bool {
        let start = match args.start {
            Some(s) => s,
            None => now,
        };
        &&& EXTENSION_DURATION <= args.duration <= MAX_DURATION
        &&& self.supports(token_type_currency(args.token_type))
        &&& start >= now
        &&& start + args.duration <= u64::MAX
        &&& opt_origins_total(args.origins) < MAX_ORIGINS
        &&& !self.has_sale(nft_contract_id@, token_id@)
        &&& !self.has_auction(nft_contract_id@, token_id@)
    }

    /// Opens an auction of an item for `owner_id`, starting at `args.start` (default `now`)
    /// and lasting `args.duration`. Returns its id and what a reader sees of it.
    pub fn start_auction(
        &mut self,
        args: AuctionArgs,
        token_id: TokenId,
        owner_id: AccountId,
        approval_id: u64,
        nft_contract_id: AccountId,
        now: u64,
    ) -> (r: Result<(u128, AuctionJson), MarketError>)
        requires
            old(self).wf(),
        ensures
            final(self).wf(),
            r is Err ==> *final(self) == *old(self),
            ({
                let good_duration = EXTENSION_DURATION <= args.duration <= MAX_DURATION;
                let ft = token_type_currency(args.token_type);
                let start = match args.start {
                    Some(s) => s,
                    None => now,
                };
                let free = !old(self).has_sale(nft_contract_id@, token_id@) && !old(self).has_auction(nft_contract_id@, token_id@);
                &&& !good_duration ==> r == Err::<(u128, AuctionJson), MarketError>(
                    MarketError::IncorrectDuration,
                )
                &&& good_duration && !old(self).supports(ft) ==> r == Err::<
                    (u128, AuctionJson),
                    MarketError,
                >(MarketError::TokenNotSupported)
                &&& good_duration && old(self).supports(ft) && start < now ==> r == Err::<
                    (u128, AuctionJson),
                    MarketError,
                >(MarketError::IncorrectStartTime)
                &&& good_duration && old(self).supports(ft) && start >= now && start
                    + args.duration > u64::MAX ==> r == Err::<(u128, AuctionJson), MarketError>(
                    MarketError::TimestampOverflow,
                )
                &&& good_duration && old(self).supports(ft) && start >= now && start
                    + args.duration <= u64::MAX && opt_origins_total(args.origins) >= MAX_ORIGINS
                    ==> r == Err::<(u128, AuctionJson), MarketError>(
                    MarketError::MaxOriginsExceeded,
                )
                &&& good_duration && old(self).supports(ft) && start >= now && start
                    + args.duration <= u64::MAX && opt_origins_total(args.origins) < MAX_ORIGINS
                    && !free ==> r == Err::<(u128, AuctionJson), MarketError>(
                    MarketError::ListingExists,
                )
                &&& r is Ok <==> good_duration && old(self).supports(ft) && start >= now && start
                    + args.duration <= u64::MAX && opt_origins_total(args.origins) < MAX_ORIGINS
                    && free
                &&& r is Ok <==> old(self).can_start_auction(args, token_id, nft_contract_id, now)
                &&& r matches Ok((id, json)) ==> {
                    let a = final(self).market.auctions@[id as int]->0;
                    &&& id == old(self).market.next_auction_id
                    &&& final(self).market.auctions@ == old(self).market.auctions@.push(
                        final(self).market.auctions@[id as int],
                    )
                    &&& final(self).market.auctions@[id as int] is Some
                    &&& a.owner_id == owner_id
                    &&& a.approval_id == approval_id
                    &&& a.nft_contract_id == nft_contract_id
                    &&& a.token_id == token_id
                    &&& a.bid is None
                    &&& a.created_at == now
                    &&& a.ft_token_id@ == ft
                    &&& a.minimal_step == args.minimal_step
                    &&& a.start_price == args.start_price
                    &&& a.buy_out_price == args.buy_out_price
                    &&& a.start == start
                    &&& a.end == start + args.duration
                    &&& a.origins@ == opt_origins_seq(args.origins)
                    &&& a.shown_by(json)
                    &&& final(self).market.sales == old(self).market.sales
                    &&& final(self).market.bid_accounts == old(self).market.bid_accounts
                    &&& final(self).same_config(old(self))
                    &&& final(self).same_bids(old(self))
                }
            }),
    {
        if args.duration < EXTENSION_DURATION || args.duration > MAX_DURATION {
            return Err(MarketError::IncorrectDuration);
        }
        let ft_token_id = match self.token_type_to_ft_token_type(args.token_type) {
            Ok(ft) => ft,
            Err(e) => return Err(e),
        };
        let start = match args.start {
            Some(s) => s,
            None => now,
        };
        if start < now {
            return Err(MarketError::IncorrectStartTime);
        }
        let end = match start.checked_add(args.duration) {
            Some(e) => e,
            None => return Err(MarketError::TimestampOverflow),
        };
        let total = match &args.origins {
            Some(o) => calculate_origins(o),
            None => 0,
        };
        if total >= MAX_ORIGINS {
            return Err(MarketError::MaxOriginsExceeded);
        }
        if self.find_sale(&nft_contract_id, &token_id).is_some() || self.has_auction_for(
            &nft_contract_id,
            &token_id,
        ) {
            return Err(MarketError::ListingExists);
        }
        let auction_id = self.market.next_auction_id;
        let count = self.market.auctions.len();
        assert(auction_id == count);
        let auction = Auction {
            owner_id,
            approval_id,
            nft_contract_id,
            token_id,
            bid: None,
            created_at: now,
            ft_token_id,
            minimal_step: args.minimal_step,
            start_price: args.start_price,
            buy_out_price: args.buy_out_price,
            start,
            end,
            origins: match args.origins {
                Some(o) => o,
                None => Vec::new(),
            },
        };
        let json = auction.to_json();
        self.market.auctions.push(Some(auction));
        self.market.next_auction_id = auction_id + 1;
        Ok((auction_id, json))
    }

    /// `bidder` bids `deposit` on auction `auction_id` at `now`. The bid must reach the start
    /// price, or the current bid plus the minimal step (at least one unit more than the current
    /// bid, even when the step is zero). The previous bid is refunded. A bid less
    /// than 15 minutes before the end moves the end to 15 minutes after `now`; a bid that
    /// reaches the buyout price ends the auction at `now`.
    pub fn auction_add_bid(
        &mut self,
        auction_id: u128,
        token_type: Option<String>,
        origins: Option<Origins>,
        bidder: AccountId,
        deposit: u128,
        now: u64,
    ) -> (r: Result<Option<Transfer>, MarketError>)
        requires
            old(self).wf(),
        ensures
            final(self).wf(),
            r is Err ==> *final(self) == *old(self),
            ({
                let a = old(self).spec_auction(auction_id as int)->0;
                let ft = token_type_currency(token_type);
                let min = a.spec_minimal_next_bid();
                let extended = a.end - now < EXTENSION_DURATION;
                let accepted = old(self).supports(ft) && old(self).spec_auction(auction_id as int)
                    is Some && a.ft_token_id@ == ft && a.spec_in_progress(now) && a.owner_id@
                    != bidder@ && opt_origins_total(origins) < MAX_ORIGINS && min is Some
                    && deposit >= min->0 && (extended ==> now + EXTENSION_DURATION <= u64::MAX);
                &&& !old(self).supports(ft) ==> r == Err::<Option<Transfer>, MarketError>(
                    MarketError::TokenNotSupported,
                )
                &&& old(self).supports(ft) && old(self).spec_auction(auction_id as int) is None ==> r
                    == Err::<Option<Transfer>, MarketError>(MarketError::AuctionNotFound)
                &&& old(self).supports(ft) && old(self).spec_auction(auction_id as int) is Some
                    && a.ft_token_id@ != ft ==> r == Err::<Option<Transfer>, MarketError>(
                    MarketError::TokenNotSupported,
                )
                &&& old(self).supports(ft) && old(self).spec_auction(auction_id as int) is Some
                    && a.ft_token_id@ == ft && !a.spec_in_progress(now) ==> r == Err::<
                    Option<Transfer>,
                    MarketError,
                >(MarketError::AuctionNotInProgress)
                &&& r is Ok <==> accepted
                &&& r matches Ok(refund) ==> {
                    let a2 = final(self).spec_auction(auction_id as int)->0;
                    let b = a2.bid->0;
                    &&& final(self).spec_auction(auction_id as int) is Some
                    &&& final(self).market.auctions@ == old(self).market.auctions@.update(
                        auction_id as int,
                        Some(a2),
                    )
                    &&& same_terms(a, a2)
                    &&& a2.bid is Some
                    &&& b.owner_id == bidder
                    &&& b.price == deposit
                    &&& b.fungible_token == a.ft_token_id
                    &&& b.origins@ == opt_origins_seq(origins)
                    // each accepted bid reaches the previous one plus the minimal step
                    &&& a.bid is Some ==> deposit >= a.bid->0.price + a.minimal_step
                    &&& a.bid is Some ==> deposit > a.bid->0.price
                    &&& a.bid is None ==> deposit >= a.start_price
                    // anti-snipe extension
                    &&& !buys_out(a, deposit) && !extended ==> a2.end == a.end
                    &&& !buys_out(a, deposit) && extended ==> a2.end == now + EXTENSION_DURATION
                    // buyout closes the auction at once
                    &&& buys_out(a, deposit) ==> a2.end == now && !a2.spec_in_progress(now)
                    &&& (refund is Some <==> a.bid is Some)
                    &&& refund is Some ==> refund->0.receiver_id == a.bid->0.owner_id
                        && refund->0.amount == a.bid->0.price && refund->0.ft_token_id
                        == a.ft_token_id
                    &&& final(self).market.sales == old(self).market.sales
                    &&& final(self).market.bid_accounts == old(self).market.bid_accounts
                    &&& final(self).market.next_auction_id == old(self).market.next_auction_id
                    &&& final(self).same_config(old(self))
                    &&& final(self).same_bids(old(self))
                }
            }),
    {
        let ft_token_id = match self.token_type_to_ft_token_type(token_type) {
            Ok(ft) => ft,
            Err(e) => return Err(e),
        };
        let i = match self.auction_index(auction_id) {
            Some(i) => i,
            None => return Err(MarketError::AuctionNotFound),
        };
        let current = match &self.market.auctions[i] {
            Some(a) => a.copy(),
            None => {
                assert(false);
                return Err(MarketError::AuctionNotFound);
            },
        };
        if current.ft_token_id != ft_token_id {
            return Err(MarketError::TokenNotSupported);
        }
        if !(current.start <= now && now < current.end) {
            return Err(MarketError::AuctionNotInProgress);
        }
        if current.owner_id == bidder {
            return Err(MarketError::OwnListing);
        }
        let total = match &origins {
            Some(o) => calculate_origins(o),
            None => 0,
        };
        if total >= MAX_ORIGINS {
            return Err(MarketError::MaxOriginsExceeded);
        }
        let min_deposit = match &current.bid {
            Some(b) => match b.price.checked_add(current.step()) {
                Some(m) => m,
                None => return Err(MarketError::BidTooLow),
            },
            None => current.start_price,
        };
        if deposit < min_deposit {
            return Err(MarketError::BidTooLow);
        }
        let mut end = current.end;
        if current.end - now < EXTENSION_DURATION {
            end = match now.checked_add(EXTENSION_DURATION) {
                Some(e) => e,
                None => return Err(MarketError::TimestampOverflow),
            };
        }
        if let Some(buy_out_price) = current.buy_out_price {
            if buy_out_price <= deposit {
                end = now;
            }
        }
        let refund = match &current.bid {
            Some(previous) => Some(
                self.refund_bid(
                    current.ft_token_id.clone(),
                    previous.owner_id.clone(),
                    previous.price,
                ),
            ),
            None => None,
        };
        let bid = Bid {
            bid_id: auction_id,
            nft_contract_id: current.nft_contract_id.clone(),
            token_id: current.token_id.clone(),
            owner_id: bidder,
            fungible_token: current.ft_token_id.clone(),
            price: deposit,
            start: now,
            end: None,
            origins: match origins {
                Some(o) => o,
                None => Vec::new(),
            },
        };
        let updated = Auction { bid: Some(bid), end, ..current };
        self.market.auctions.set(i, Some(updated));
        Ok(refund)
    }

    /// The owner `caller` withdraws auction `auction_id`, which must have no bid yet.
    pub fn cancel_auction(&mut self, auction_id: u128, caller: AccountId) -> (r: Result<
        (),
        MarketError,
    >)
        requires
            old(self).wf(),
        ensures
            final(self).wf(),
            r is Err ==> *final(self) == *old(self),
            ({
                let found = old(self).spec_auction(auction_id as int);
                let a = found->0;
                &&& found is None ==> r == Err::<(), MarketError>(MarketError::AuctionNotFound)
                &&& found is Some && a.owner_id@ != caller@ ==> r == Err::<(), MarketError>(
                    MarketError::NotOwner,
                )
                &&& found is Some && a.owner_id@ == caller@ && a.bid is Some ==> r == Err::<
                    (),
                    MarketError,
                >(MarketError::AuctionHasBid)
                &&& r is Ok <==> found is Some && a.owner_id@ == caller@ && a.bid is None
            }),
            r is Ok ==> final(self).market.auctions@ == old(self).market.auctions@.update(
                auction_id as int,
                None,
            ) && final(self).market.next_auction_id == old(self).market.next_auction_id
                && final(self).market.sales == old(self).market.sales
                && final(self).market.bid_accounts == old(self).market.bid_accounts && final(self).same_config(old(self)) && final(self).same_bids(old(self)),
    {
        let i = match self.auction_index(auction_id) {
            Some(i) => i,
            None => return Err(MarketError::AuctionNotFound),
        };
        match &self.market.auctions[i] {
            Some(a) => {
                if a.owner_id != caller {
                    return Err(MarketError::NotOwner);
                }
                if a.bid.is_some() {
                    return Err(MarketError::AuctionHasBid);
                }
            },
            None => {},
        }
        self.market.auctions.set(i, None);
        Ok(())
    }

    /// Closes auction `auction_id` once `now` is past its end, if it has a bid. The auction
    /// leaves the table before settlement, whatever settlement's outcome; the returned copy
    /// carries what settlement needs.
    pub fn finish_auction(&mut self, auction_id: u128, now: u64) -> (r: Result<Auction, MarketError>)
        requires
            old(self).wf(),
        ensures
            final(self).wf(),
            r is Err ==> *final(self) == *old(self),
            ({
                let found = old(self).spec_auction(auction_id as int);
                let a = found->0;
                &&& found is None ==> r == Err::<Auction, MarketError>(MarketError::AuctionNotFound)
                &&& found is Some && now <= a.end ==> r == Err::<Auction, MarketError>(
                    MarketError::AuctionNotEnded,
                )
                &&& found is Some && now > a.end && a.bid is None ==> r == Err::<
                    Auction,
                    MarketError,
                >(MarketError::AuctionHasNoBid)
                &&& r is Ok <==> found is Some && now > a.end && a.bid is Some
                &&& r matches Ok(closed) ==> closed.same_as(a)
            }),
            r is Ok ==> final(self).market.auctions@ == old(self).market.auctions@.update(
                auction_id as int,
                None,
            ) && final(self).spec_auction(auction_id as int) is None
                && final(self).market.next_auction_id == old(self).market.next_auction_id
                && final(self).market.sales == old(self).market.sales
                && final(self).market.bid_accounts == old(self).market.bid_accounts && final(self).same_config(old(self)) && final(self).same_bids(old(self)),
    {
        let i = match self.auction_index(auction_id) {
            Some(i) => i,
            None => return Err(MarketError::AuctionNotFound),
        };
        let closed = match &self.market.auctions[i] {
            Some(a) => {
                if now <= a.end {
                    return Err(MarketError::AuctionNotEnded);
                }
                if a.bid.is_none() {
                    return Err(MarketError::AuctionHasNoBid);
                }
                a.copy()
            },
            None => {
                assert(false);
                return Err(MarketError::AuctionNotFound);
            },
        };
        self.market.auctions.set(i, None);
        Ok(closed)
    }

    /// Settlement callback of an auction won by `buyer_id` at `price`. When the payout table
    /// settles the sale, pays the royalties, the referral shares of `origins` and the owner.
    /// Otherwise the market, which holds the winning deposit, pays it back to the buyer and
    /// reports the full price undisbursed.
    pub fn resolve_finish_auction(
        &self,
        ft_token_id: AccountId,
        buyer_id: AccountId,
        owner_id: AccountId,
        price: u128,
        origins: Origins,
        payout: Option<Vec<(AccountId, u128)>>,
    ) -> (r: Settlement)
        ensures
            settles(price as int, payout, owner_id@, origins@) ==> r.undisbursed == 0 && pays(
                r.transfers@,
                spec_split_payout(price as int, payout->0@, owner_id, origins@),
                ft_token_id,
            ),
            !settles(price as int, payout, owner_id@, origins@) ==> r.undisbursed == price
                && r.transfers@.len() == 1 && r.transfers@[0].receiver_id == buyer_id
                && r.transfers@[0].amount == price && r.transfers@[0].ft_token_id == ft_token_id,
    {
        match disburse(price, payout, &owner_id, &origins, &ft_token_id) {
            Some(transfers) => Settlement { undisbursed: 0, transfers },
            None => {
                let mut transfers: Vec<Transfer> = Vec::new();
                transfers.push(self.refund_bid(ft_token_id, buyer_id, price));
                Settlement { undisbursed: price, transfers }
            },
        }
    }
}

} // verus!
