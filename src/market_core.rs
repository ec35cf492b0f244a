use vstd::prelude::*;

use crate::sale::SaleConditions;
use crate::sales::owned_by;
use crate::{AccountId, AuctionJson, Market, MarketError, Origins, SaleJson, TokenId, STORAGE_PER_SALE};

verus! {

/// What the owner asks for when listing an item for offers.
pub struct SaleArgs {
    pub sale_conditions: SaleConditions,
    pub token_type: Option<String>,
    pub start: Option<u64>,
    pub end: Option<u64>,
    pub origins: Option<Origins>,
}

/// What the owner asks for when auctioning an item. Durations are in nanoseconds.
pub struct AuctionArgs {
    pub token_type: Option<String>,
    pub minimal_step: u128,
    pub start_price: u128,
    pub start: Option<u64>,
    pub duration: u64,
    pub buy_out_price: Option<u128>,
    pub origins: Option<Origins>,
}

/// The kind of listing an approval asks for.
pub enum ArgsKind {
    Sale(SaleArgs),
    Auction(AuctionArgs),
}

/// The listing that an approval created.
pub enum Listing {
    Sale(SaleJson),
    Auction(u128, AuctionJson),
}

/// Receives the token contract's approval of the market for an item, and lists the item.
pub trait NonFungibleTokenApprovalReceiver: Sized {
    /// The receiver is in a state where it can take approvals.
    spec fn ready(&self) -> bool;

    /// What taking the approval does: `after` is the receiver once the call returned `r`.
    spec fn approved(
        before: Self,
        after: Self,
        token_id: TokenId,
        owner_id: AccountId,
        approval_id: u64,
        args: ArgsKind,
        nft_contract_id: AccountId,
        signer_id: AccountId,
        now: u64,
        r: Result<Listing, MarketError>,
    ) -> bool;

    /// `nft_contract_id` approved the market for the item `token_id` of `owner_id`, in a call
    /// signed by `signer_id` at `now`; `args` says how to list it.
    fn nft_on_approve(
        &mut self,
        token_id: TokenId,
        owner_id: AccountId,
        approval_id: u64,
        args: ArgsKind,
        nft_contract_id: AccountId,
        signer_id: AccountId,
        now: u64,
    ) -> (r: Result<Listing, MarketError>)
        requires
            old(self).ready(),
        ensures
            final(self).ready(),
            Self::approved(
                *old(self),
                *final(self),
                token_id,
                owner_id,
                approval_id,
                args,
                nft_contract_id,
                signer_id,
                now,
                r,
            ),
    ;
}

impl Market {
    /// The approval gate: the call came through a token contract, the owner signed it, and the
    /// owner has paid storage for one more listing.
    pub open spec fn approval_admitted(
        &self,
        owner_id: AccountId,
        nft_contract_id: AccountId,
        signer_id: AccountId,
    ) -> bool {
        &&& nft_contract_id@ != signer_id@
        &&& owner_id@ == signer_id@
        &&& self.storage_paid(signer_id@) >= (self.owner_sales_count(signer_id@) + 1)
            * STORAGE_PER_SALE
    }

    /// What `on_approve` does. A call through no token contract, not signed by the owner, or
    /// without storage paid for one more listing is refused; so is a listing that `start_sale`
    /// or `start_auction` refuses. A refused call changes nothing. Otherwise the item is listed
    /// for its owner under `approval_id`, and a sale adds one to the owner's count of sales.
    pub open spec fn approval_outcome(
        before: Market,
        after: Market,
        token_id: TokenId,
        owner_id: AccountId,
        approval_id: u64,
        args: ArgsKind,
        nft_contract_id: AccountId,
        signer_id: AccountId,
        now: u64,
        r: Result<Listing, MarketError>,
    ) -> bool {
        let key = (nft_contract_id@, token_id@);
        &&& r is Err ==> after == before
        &&& nft_contract_id@ == signer_id@ ==> r == Err::<Listing, MarketError>(
            MarketError::NotCrossContractCall,
        )
        &&& nft_contract_id@ != signer_id@ && owner_id@ != signer_id@ ==> r == Err::<
            Listing,
            MarketError,
        >(MarketError::OwnerNotSigner)
        &&& nft_contract_id@ != signer_id@ && owner_id@ == signer_id@ && !before.approval_admitted(
            owner_id,
            nft_contract_id,
            signer_id,
        ) ==> r == Err::<Listing, MarketError>(MarketError::InsufficientStorage)
        &&& r is Ok <==> before.approval_admitted(owner_id, nft_contract_id, signer_id) && match args {
            ArgsKind::Sale(a) => before.can_start_sale(a, token_id, owner_id, nft_contract_id),
            ArgsKind::Auction(a) => before.can_start_auction(a, token_id, nft_contract_id, now),
        }
        &&& r matches Ok(Listing::Sale(_)) ==> {
            &&& args is Sale
            &&& after.has_sale(nft_contract_id@, token_id@)
            &&& after.sales_view()[key].owner_id == owner_id
            &&& after.sales_view()[key].approval_id == approval_id
            &&& after.owner_sales_count(owner_id@) == before.owner_sales_count(owner_id@) + 1
        }
        &&& r matches Ok(Listing::Auction(id, _)) ==> {
            &&& args is Auction
            &&& id == before.market.next_auction_id
            &&& after.spec_auction(id as int) is Some
            &&& after.spec_auction(id as int)->0.owner_id == owner_id
            &&& after.spec_auction(id as int)->0.approval_id == approval_id
            &&& after.spec_auction(id as int)->0.nft_contract_id == nft_contract_id
            &&& after.spec_auction(id as int)->0.token_id == token_id
        }
    }

    /// Lists an item after its token contract approved the market for it: as a sale or an
    /// auction, as `args` says.
    pub fn on_approve(
        &mut self,
        token_id: TokenId,
        owner_id: AccountId,
        approval_id: u64,
        args: ArgsKind,
        nft_contract_id: AccountId,
        signer_id: AccountId,
        now: u64,
    ) -> (r: Result<Listing, MarketError>)
        requires
            old(self).wf(),
        ensures
            final(self).wf(),
            Market::approval_outcome(
                *old(self),
                *final(self),
                token_id,
                owner_id,
                approval_id,
                args,
                nft_contract_id,
                signer_id,
                now,
                r,
            ),
    {
        if nft_contract_id == signer_id {
            return Err(MarketError::NotCrossContractCall);
        }
        if owner_id != signer_id {
            return Err(MarketError::OwnerNotSigner);
        }
        let paid = self.get_storage_paid(&signer_id);
        let listed = self.count_sales_by_owner(&signer_id);
        match ((listed as u128) + 1).checked_mul(STORAGE_PER_SALE) {
            Some(required) => {
                if paid < required {
                    return Err(MarketError::InsufficientStorage);
                }
            },
            None => return Err(MarketError::InsufficientStorage),
        }
        let ghost old_sales = self.market.sales@;
        match args {
            ArgsKind::Sale(a) => match self.start_sale(
                a,
                token_id,
                owner_id,
                approval_id,
                nft_contract_id,
                now,
            ) {
                Ok(json) => {
                    proof {
                        let key = (nft_contract_id@, token_id@);
                        let sale = self.sales_view()[key];
                        old_sales.lemma_filter_push(sale, owned_by(owner_id@));
                    }
                    Ok(Listing::Sale(json))
                },
                Err(e) => Err(e),
            },
            ArgsKind::Auction(a) => match self.start_auction(
                a,
                token_id,
                owner_id,
                approval_id,
                nft_contract_id,
                now,
            ) {
                Ok((id, json)) => Ok(Listing::Auction(id, json)),
                Err(e) => Err(e),
            },
        }
    }
}

impl NonFungibleTokenApprovalReceiver for Market {
    open spec fn ready(&self) -> bool {
        self.wf()
    }

    open spec fn approved(
        before: Market,
        after: Market,
        token_id: TokenId,
        owner_id: AccountId,
        approval_id: u64,
        args: ArgsKind,
        nft_contract_id: AccountId,
        signer_id: AccountId,
        now: u64,
        r: Result<Listing, MarketError>,
    ) -> bool {
        Market::approval_outcome(
            before,
            after,
            token_id,
            owner_id,
            approval_id,
            args,
            nft_contract_id,
            signer_id,
            now,
            r,
        )
    }

    fn nft_on_approve(
        &mut self,
        token_id: TokenId,
        owner_id: AccountId,
        approval_id: u64,
        args: ArgsKind,
        nft_contract_id: AccountId,
        signer_id: AccountId,
        now: u64,
    ) -> (r: Result<Listing, MarketError>) {
        self.on_approve(token_id, owner_id, approval_id, args, nft_contract_id, signer_id, now)
    }
}

} // verus!
