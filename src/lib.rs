//! A marketplace for non-fungible tokens: time-boxed auctions with anti-snipe extension and
//! buyout, offer listings with a price-ordered bid ledger (one live bid per owner and item),
//! escrow balances that back bids, the fee and payout calculator, and the settlement steps
//! that either disburse a sale or refund its buyer. Every operation takes the caller, the
//! attached amount and the time as arguments and returns the payments to make, so the
//! library itself does no I/O.

use vstd::prelude::*;

pub mod auction;
pub mod auction_views;
pub mod auctions;
pub mod bid;
pub mod bids;
pub mod escrow;
pub mod fee;
pub mod market;
pub mod market_core;
pub mod sale;
pub mod sale_views;
pub mod sales;
pub mod settlement;
pub mod table;

pub use auction::{Auction, AuctionJson, EXTENSION_DURATION, MAX_DURATION};
pub use bid::Bid;
pub use market_core::{ArgsKind, AuctionArgs, Listing, NonFungibleTokenApprovalReceiver, SaleArgs};
pub use market::{Market, MarketSales, STORAGE_PER_SALE};
pub use sales::OfferOutcome;
pub use settlement::{Fees, PendingPurchase, Settlement};
pub use sale::{PurchaseArgs, Sale, SaleJson, SeriesSale};
pub use escrow::{BalanceTable, BidAccount};
pub use fee::{
    calculate_origins, calculate_price_with_fees, get_fee, with_fees, MAX_ORIGINS,
    PAYOUT_TOTAL_VALUE, PROTOCOL_FEE,
};

verus! {

/// Name of an account: a principal, a token contract or a currency.
pub type AccountId = String;

/// Identifier of a token within its collection.
pub type TokenId = String;

/// Identifier of a currency ("near" is the native one).
pub type FungibleTokenId = AccountId;

/// Referral ("origin") fee table: principal and basis points.
pub type Origins = Vec<(AccountId, u32)>;

/// Identifier of a bid in the bid ledger.
pub type BidId = u128;

/// Why a market operation was refused. A refused operation changes nothing.
#[derive(Clone, Copy, Debug, PartialEq, Eq, Structural)]
pub enum MarketError {
    /// The currency is not accepted by this market.
    TokenNotSupported,
    /// An auction must last between 15 minutes and 1000 days.
    IncorrectDuration,
    /// A listing cannot start in the past.
    IncorrectStartTime,
    /// A time computation went past the largest timestamp.
    TimestampOverflow,
    /// No auction has this id.
    AuctionNotFound,
    /// The auction is not open for bids now.
    AuctionNotInProgress,
    /// The bid is below the smallest acceptable amount.
    BidTooLow,
    /// An owner cannot bid on its own listing.
    OwnListing,
    /// Only the owner of the listing may do this.
    NotOwner,
    /// An auction cannot be cancelled once it has a bid.
    AuctionHasBid,
    /// The auction can be finished only after its end.
    AuctionNotEnded,
    /// The auction has no bid to settle.
    AuctionHasNoBid,
    /// The referral fees total too many basis points.
    MaxOriginsExceeded,
    /// An offer must be for more than zero.
    OfferedPriceZero,
    /// No sale for this item.
    SaleNotFound,
    /// A listing for this item already exists.
    ListingExists,
    /// The sale has no price in this currency.
    PriceNotSet,
    /// The sale is finished or has not started yet.
    SaleNotInProgress,
    /// No bid is active, in its window and backed by enough escrow.
    NoActiveBids,
    /// No such bid.
    BidNotFound,
    /// The bid's validity window has not elapsed yet.
    BidNotEnded,
    /// The bid has no end time, so it never expires.
    BidHasNoEnd,
    /// The market holds no balance for this owner and currency.
    BidAccountNotFound,
    /// The balance is smaller than the amount asked for.
    NotEnoughFunds,
    /// A balance would exceed the largest amount.
    BalanceOverflow,
    /// A storage deposit must cover at least one listing.
    StorageDepositTooSmall,
    /// The owner has not paid storage for one more listing.
    InsufficientStorage,
    /// Listings are created only through the token contract's approval call.
    NotCrossContractCall,
    /// The token owner must be the one who signed the approval.
    OwnerNotSigner,
    /// The token type must occur in the token id.
    TokenTypeNotInTokenId,
}

/// A payment that the market orders: `amount` of `ft_token_id` to `receiver_id`.
pub struct Transfer {
    pub receiver_id: AccountId,
    pub ft_token_id: FungibleTokenId,
    pub amount: u128,
}

} // verus!
