//! Settlement of a listing: validation of every supplied account against its
//! derivation, the three staged auction-house operations (deposit, bid
//! registration, trade execution) as one all-or-nothing state transition,
//! and the balance-gated reward payout that follows.

use crate::addr::Address;
use crate::addr::address_eq;
use crate::addr::auction_house_seeds;
use crate::addr::auctioneer_seeds;
use crate::addr::buyer_trade_state_seeds;
use crate::addr::derivation_ok;
use crate::addr::derive_auction_house_address;
use crate::addr::derive_auctioneer_address;
use crate::addr::derive_buyer_trade_state_address;
use crate::addr::derive_escrow_address;
use crate::addr::derive_fee_account_address;
use crate::addr::derive_listing_address;
use crate::addr::derive_program_as_signer_address;
use crate::addr::derive_reward_center_address;
use crate::addr::derive_seller_trade_state_address;
use crate::addr::derive_treasury_account_address;
use crate::addr::escrow_seeds;
use crate::addr::fee_account_seeds;
use crate::addr::listing_seeds;
use crate::addr::program_as_signer_seeds;
use crate::addr::reward_center_seeds;
use crate::addr::seller_trade_state_seeds;
use crate::addr::treasury_account_seeds;
use crate::state::Auctioneer;
use crate::state::AuctionHouse;
use crate::state::Listing;
use crate::state::RewardCenter;
use crate::state::TokenAccount;
use crate::state::buyer_payout_of;
use crate::state::seller_payout_of;
use vstd::prelude::*;

verus! {

/// The sentinel price of a standing seller ask, and the price of the "free"
/// seller trade state used for direct execution.
pub const STANDING_ASK_PRICE: u64 = 0xffff_ffff_ffff_ffff;

pub const FREE_TRADE_STATE_PRICE: u64 = 0;

/// One terminal failure per settlement request; the first violated
/// precondition aborts the whole operation before any state change.
#[derive(Clone, Copy, Debug, PartialEq, Eq, Structural)]
pub enum SettlementError {
    /// A supplied account does not match its deterministic derivation.
    AddressMismatch,
    /// A token account's mint disagrees with the configured mint.
    MintMismatch,
    /// A reward token account is not owned by the expected trader.
    OwnerMismatch,
    /// The account holding the asset for sale is not owned by the seller.
    AssetOwnerMismatch,
    /// The asset's metadata fails the validity assertion.
    InvalidMetadata,
    /// The buyer cannot cover the listing price.
    InsufficientFunds,
    /// A trade state the settlement depends on is missing, or one it must
    /// create already exists.
    TradeStateConflict,
}

/// The five derivation disambiguators a settlement request carries.
#[derive(Clone, Copy, Debug, PartialEq, Eq, Structural)]
pub struct BuyListingParams {
    pub buyer_trade_state_bump: u8,
    pub escrow_payment_bump: u8,
    pub free_trade_state_bump: u8,
    pub seller_trade_state_bump: u8,
    pub program_as_signer_bump: u8,
}

/// Every account a settlement request supplies. No address in here is
/// trusted: each derived account is re-derived and compared before any
/// state changes.
#[derive(Clone, Copy, Debug, PartialEq, Eq)]
pub struct BuyListing {
    /// Buyer wallet.
    pub buyer: Address,
    /// Buyer's payment source; validated by the escrow subsystem.
    pub payment_account: Address,
    /// Authority over the payment source; validated by the escrow subsystem.
    pub transfer_authority: Address,
    /// Token account to receive the buyer's reward.
    pub buyer_reward_token_account: TokenAccount,
    /// Seller wallet.
    pub seller: Address,
    /// Token account to receive the seller's reward.
    pub seller_reward_token_account: TokenAccount,
    /// The listing being settled.
    pub listing: Listing,
    /// Token account where the asset for sale is stored.
    pub token_account: TokenAccount,
    /// Mint of the asset for sale.
    pub token_mint: Address,
    /// Metadata account decorating the asset mint.
    pub metadata: Address,
    /// Mint of the payment token, claimed to match the auction house's.
    pub treasury_mint: Address,
    /// Seller's account to receive payment at; validated by the adapter.
    pub seller_payment_receipt_account: Address,
    /// Buyer's account to receive the purchased asset at; validated by the
    /// adapter.
    pub buyer_receipt_token_account: Address,
    /// Auction-house instance authority; validated by the adapter.
    pub authority: Address,
    /// Claimed buyer escrow account.
    pub escrow_payment_account: Address,
    /// The auction-house instance record.
    pub auction_house: AuctionHouse,
    /// Claimed auction-house fee account.
    pub auction_house_fee_account: Address,
    /// Claimed auction-house treasury account.
    pub auction_house_treasury: Address,
    /// Claimed buyer trade state.
    pub buyer_trade_state: Address,
    /// Claimed seller trade state (standing ask).
    pub seller_trade_state: Address,
    /// Claimed free seller trade state (direct-execution variant).
    pub free_seller_trade_state: Address,
    /// The reward center under whose delegated authority settlement runs.
    pub reward_center: RewardCenter,
    /// Token account holding the reward center's reward treasury.
    pub reward_center_reward_token_account: TokenAccount,
    /// The auctioneer-delegation record for the reward center.
    pub ah_auctioneer_pda: Auctioneer,
    /// Claimed signing account of the auction-house program.
    pub program_as_signer: Address,
    /// The auction-house program.
    pub auction_house_program: Address,
    /// The reward-center program itself, under which the listing and the
    /// reward center are derived.
    pub reward_center_program: Address,
}

/// The mutable storage a settlement request touches: the listing record, the
/// trade states whose existence encodes open orders, and the balances moved
/// by escrow, trade execution and reward payout. The asset itself is
/// tracked by its holder.
#[derive(Clone, Copy, Debug, PartialEq, Eq)]
pub struct MarketState {
    /// Whether the listing record still exists.
    pub listing_open: bool,
    /// Whether a buyer trade state exists for this trade.
    pub buyer_trade_state_open: bool,
    /// Whether the seller's standing ask exists.
    pub seller_trade_state_open: bool,
    /// Whether the seller's free trade state exists.
    pub free_trade_state_open: bool,
    /// Balance of the buyer's payment source.
    pub buyer_payment_balance: u64,
    /// Balance of the buyer's escrow account.
    pub escrow_balance: u64,
    /// Balance of the seller's payment receipt account.
    pub seller_payment_balance: u64,
    /// Current holder of the asset for sale.
    pub asset_holder: Address,
    /// Balance of the reward center's reward treasury.
    pub treasury_balance: u64,
    /// Balance of the buyer's reward token account.
    pub buyer_reward_balance: u64,
    /// Balance of the seller's reward token account.
    pub seller_reward_balance: u64,
}

/// All mint preconditions: the two reward accounts and the treasury share
/// the reward center's configured mint, and the asset account holds the
/// asset mint.
pub open spec fn mints_ok(a: BuyListing) -> bool {
    &&& a.reward_center.token_mint@ == a.buyer_reward_token_account.mint@
    &&& a.buyer_reward_token_account.mint@ == a.seller_reward_token_account.mint@
    &&& a.reward_center.token_mint@ == a.reward_center_reward_token_account.mint@
    &&& a.token_account.mint@ == a.token_mint@
}

/// The reward-account ownership preconditions: each reward-token account is
/// owned by its trader.
pub open spec fn owners_ok(a: BuyListing) -> bool {
    &&& a.buyer_reward_token_account.owner@ == a.buyer@
    &&& a.seller_reward_token_account.owner@ == a.seller@
}

/// The asset-account ownership precondition: the account holding the asset
/// for sale is owned by the seller. A distinct condition from the
/// reward-account ownership checks.
pub open spec fn asset_owner_ok(a: BuyListing) -> bool {
    a.token_account.owner@ == a.seller@
}

/// All address preconditions: every derived account matches its derivation,
/// and every stored cross-reference matches the supplied account.
pub open spec fn addresses_ok(a: BuyListing, p: BuyListingParams) -> bool {
    &&& derivation_ok(
        listing_seeds(a.seller@, a.metadata@, a.reward_center.address@, a.listing.bump),
        a.reward_center_program@,
        a.listing.address@,
    )
    &&& a.listing.seller@ == a.seller@
    &&& a.listing.metadata@ == a.metadata@
    &&& a.treasury_mint@ == a.auction_house.treasury_mint@
    &&& a.auction_house_fee_account@ == a.auction_house.auction_house_fee_account@
    &&& a.auction_house_treasury@ == a.auction_house.auction_house_treasury@
    &&& a.reward_center.auction_house@ == a.auction_house.address@
    &&& derivation_ok(
        escrow_seeds(a.auction_house.address@, a.buyer@, p.escrow_payment_bump),
        a.auction_house_program@,
        a.escrow_payment_account@,
    )
    &&& derivation_ok(
        auction_house_seeds(
            a.auction_house.creator@,
            a.auction_house.treasury_mint@,
            a.auction_house.bump,
        ),
        a.auction_house_program@,
        a.auction_house.address@,
    )
    &&& derivation_ok(
        fee_account_seeds(a.auction_house.address@, a.auction_house.fee_payer_bump),
        a.auction_house_program@,
        a.auction_house_fee_account@,
    )
    &&& derivation_ok(
        treasury_account_seeds(a.auction_house.address@, a.auction_house.treasury_bump),
        a.auction_house_program@,
        a.auction_house_treasury@,
    )
    &&& derivation_ok(
        buyer_trade_state_seeds(
            a.buyer@,
            a.auction_house.address@,
            a.treasury_mint@,
            a.token_mint@,
            a.listing.price,
            a.listing.token_size,
            p.buyer_trade_state_bump,
        ),
        a.auction_house_program@,
        a.buyer_trade_state@,
    )
    &&& derivation_ok(
        seller_trade_state_seeds(
            a.seller@,
            a.auction_house.address@,
            a.token_account.address@,
            a.treasury_mint@,
            a.token_mint@,
            STANDING_ASK_PRICE,
            a.listing.token_size,
            p.seller_trade_state_bump,
        ),
        a.auction_house_program@,
        a.seller_trade_state@,
    )
    &&& derivation_ok(
        seller_trade_state_seeds(
            a.seller@,
            a.auction_house.address@,
            a.token_account.address@,
            a.treasury_mint@,
            a.token_mint@,
            FREE_TRADE_STATE_PRICE,
            a.listing.token_size,
            p.free_trade_state_bump,
        ),
        a.auction_house_program@,
        a.free_seller_trade_state@,
    )
    &&& derivation_ok(
        reward_center_seeds(a.auction_house.address@, a.reward_center.bump),
        a.reward_center_program@,
        a.reward_center.address@,
    )
    &&& derivation_ok(
        auctioneer_seeds(
            a.auction_house.address@,
            a.reward_center.address@,
            a.ah_auctioneer_pda.bump,
        ),
        a.auction_house_program@,
        a.ah_auctioneer_pda.address@,
    )
    &&& derivation_ok(
        program_as_signer_seeds(p.program_as_signer_bump),
        a.auction_house_program@,
        a.program_as_signer@,
    )
}

/// The result of account validation: the first violated precondition group
/// names the failure, and every check precedes every state change.
pub open spec fn validation_outcome(a: BuyListing, p: BuyListingParams) -> Result<
    (),
    SettlementError,
> {
    if !mints_ok(a) {
        Err(SettlementError::MintMismatch)
    } else if !owners_ok(a) {
        Err(SettlementError::OwnerMismatch)
    } else if !asset_owner_ok(a) {
        Err(SettlementError::AssetOwnerMismatch)
    } else if !addresses_ok(a, p) {
        Err(SettlementError::AddressMismatch)
    } else {
        Ok(())
    }
}

/// The trade states and the listing are positioned for exactly one
/// settlement: the listing and both seller intents exist, and no buyer
/// trade state is registered yet.
pub open spec fn trade_ready(st: MarketState) -> bool {
    &&& st.listing_open
    &&& st.seller_trade_state_open
    &&& st.free_trade_state_open
    &&& !st.buyer_trade_state_open
}

/// The terminal outcome of a settlement request against a market state.
pub open spec fn settle_outcome(
    a: BuyListing,
    p: BuyListingParams,
    st: MarketState,
    metadata_valid: bool,
) -> Result<(), SettlementError> {
    if validation_outcome(a, p) is Err {
        validation_outcome(a, p)
    } else if !metadata_valid {
        Err(SettlementError::InvalidMetadata)
    } else if st.buyer_payment_balance < a.listing.price {
        Err(SettlementError::InsufficientFunds)
    } else if !trade_ready(st) {
        Err(SettlementError::TradeStateConflict)
    } else {
        Ok(())
    }
}

/// The amount a balance-gated payout disburses: the full amount where the
/// treasury covers it, nothing otherwise. Depletion is a silent skip, never
/// a partial payment and never an error.
pub open spec fn gated_payout(balance: u64, amount: int) -> int {
    if amount > 0 && balance >= amount {
        amount
    } else {
        0
    }
}

/// The market state after a successful settlement: the buyer's funds moved
/// through escrow to the seller, the asset moved to the buyer, the listing
/// and all three trade states are consumed, and each reward payout was
/// disbursed exactly where the treasury balance, re-read after the buyer's
/// transfer, covered it in full — the buyer payout is evaluated first.
pub open spec fn settled_state(a: BuyListing, st: MarketState) -> MarketState {
    let price = a.listing.price;
    let seller_amount = seller_payout_of(a.reward_center.reward_rules, price);
    let buyer_amount = buyer_payout_of(a.reward_center.reward_rules, price);
    let buyer_paid = gated_payout(st.treasury_balance, buyer_amount);
    let remaining = (st.treasury_balance - buyer_paid) as u64;
    let seller_paid = gated_payout(remaining, seller_amount);
    MarketState {
        listing_open: false,
        buyer_trade_state_open: false,
        seller_trade_state_open: false,
        free_trade_state_open: false,
        buyer_payment_balance: (st.buyer_payment_balance - price) as u64,
        escrow_balance: st.escrow_balance,
        seller_payment_balance: (st.seller_payment_balance + price) as u64,
        asset_holder: a.buyer,
        treasury_balance: (remaining - seller_paid) as u64,
        buyer_reward_balance: (st.buyer_reward_balance + buyer_paid) as u64,
        seller_reward_balance: (st.seller_reward_balance + seller_paid) as u64,
    }
}

/// Re-derives and checks every account a settlement request supplies.
/// Returns the first violated precondition, or `Ok` when every supplied
/// account is exactly what it claims to be.
pub fn validate_accounts(a: &BuyListing, p: &BuyListingParams) -> (r: Result<(), SettlementError>)
    ensures
        r == validation_outcome(*a, *p),
{
    let mints_ok = address_eq(&a.reward_center.token_mint, &a.buyer_reward_token_account.mint)
        && address_eq(&a.buyer_reward_token_account.mint, &a.seller_reward_token_account.mint)
        && address_eq(&a.reward_center.token_mint, &a.reward_center_reward_token_account.mint)
        && address_eq(&a.token_account.mint, &a.token_mint);
    if !mints_ok {
        return Err(SettlementError::MintMismatch);
    }
    let owners_ok = address_eq(&a.buyer_reward_token_account.owner, &a.buyer)
        && address_eq(&a.seller_reward_token_account.owner, &a.seller);
    if !owners_ok {
        return Err(SettlementError::OwnerMismatch);
    }
    if !address_eq(&a.token_account.owner, &a.seller) {
        return Err(SettlementError::AssetOwnerMismatch);
    }
    let listing_ok = match derive_listing_address(
        &a.seller,
        &a.metadata,
        &a.reward_center.address,
        a.listing.bump,
        &a.reward_center_program,
    ) {
        Some(d) => address_eq(&d, &a.listing.address),
        None => false,
    };
    let references_ok = address_eq(&a.listing.seller, &a.seller)
        && address_eq(&a.listing.metadata, &a.metadata)
        && address_eq(&a.treasury_mint, &a.auction_house.treasury_mint)
        && address_eq(&a.auction_house_fee_account, &a.auction_house.auction_house_fee_account)
        && address_eq(&a.auction_house_treasury, &a.auction_house.auction_house_treasury)
        && address_eq(&a.reward_center.auction_house, &a.auction_house.address);
    let escrow_ok = match derive_escrow_address(
        &a.auction_house.address,
        &a.buyer,
        p.escrow_payment_bump,
        &a.auction_house_program,
    ) {
        Some(d) => address_eq(&d, &a.escrow_payment_account),
        None => false,
    };
    let auction_house_ok = match derive_auction_house_address(
        &a.auction_house.creator,
        &a.auction_house.treasury_mint,
        a.auction_house.bump,
        &a.auction_house_program,
    ) {
        Some(d) => address_eq(&d, &a.auction_house.address),
        None => false,
    };
    let fee_ok = match derive_fee_account_address(
        &a.auction_house.address,
        a.auction_house.fee_payer_bump,
        &a.auction_house_program,
    ) {
        Some(d) => address_eq(&d, &a.auction_house_fee_account),
        None => false,
    };
    let treasury_ok = match derive_treasury_account_address(
        &a.auction_house.address,
        a.auction_house.treasury_bump,
        &a.auction_house_program,
    ) {
        Some(d) => address_eq(&d, &a.auction_house_treasury),
        None => false,
    };
    let buyer_trade_state_ok = match derive_buyer_trade_state_address(
        &a.buyer,
        &a.auction_house.address,
        &a.treasury_mint,
        &a.token_mint,
        a.listing.price,
        a.listing.token_size,
        p.buyer_trade_state_bump,
        &a.auction_house_program,
    ) {
        Some(d) => address_eq(&d, &a.buyer_trade_state),
        None => false,
    };
    let seller_trade_state_ok = match derive_seller_trade_state_address(
        &a.seller,
        &a.auction_house.address,
        &a.token_account.address,
        &a.treasury_mint,
        &a.token_mint,
        STANDING_ASK_PRICE,
        a.listing.token_size,
        p.seller_trade_state_bump,
        &a.auction_house_program,
    ) {
        Some(d) => address_eq(&d, &a.seller_trade_state),
        None => false,
    };
    let free_trade_state_ok = match derive_seller_trade_state_address(
        &a.seller,
        &a.auction_house.address,
        &a.token_account.address,
        &a.treasury_mint,
        &a.token_mint,
        FREE_TRADE_STATE_PRICE,
        a.listing.token_size,
        p.free_trade_state_bump,
        &a.auction_house_program,
    ) {
        Some(d) => address_eq(&d, &a.free_seller_trade_state),
        None => false,
    };
    let reward_center_ok = match derive_reward_center_address(
        &a.auction_house.address,
        a.reward_center.bump,
        &a.reward_center_program,
    ) {
        Some(d) => address_eq(&d, &a.reward_center.address),
        None => false,
    };
    let auctioneer_ok = match derive_auctioneer_address(
        &a.auction_house.address,
        &a.reward_center.address,
        a.ah_auctioneer_pda.bump,
        &a.auction_house_program,
    ) {
        Some(d) => address_eq(&d, &a.ah_auctioneer_pda.address),
        None => false,
    };
    let signer_ok = match derive_program_as_signer_address(
        p.program_as_signer_bump,
        &a.auction_house_program,
    ) {
        Some(d) => address_eq(&d, &a.program_as_signer),
        None => false,
    };
    if listing_ok && references_ok && escrow_ok && auction_house_ok && fee_ok && treasury_ok
        && buyer_trade_state_ok && seller_trade_state_ok && free_trade_state_ok
        && reward_center_ok && auctioneer_ok && signer_ok {
        Ok(())
    } else {
        Err(SettlementError::AddressMismatch)
    }
}

/// Whether a balance-gated payout is due: the amount is positive and the
/// currently observed balance covers it in full. This is the disbursement
/// decision itself, shared with the layer that performs the transfers.
pub fn payout_due(balance: u64, amount: u64) -> (r: bool)
    ensures
        r == (amount > 0 && balance >= amount),
        r ==> gated_payout(balance, amount as int) == amount,
        !r ==> gated_payout(balance, amount as int) == 0,
{
    amount > 0 && balance >= amount
}

/// Law: settlement is a pure function of its inputs. Two requests that carry
/// the same accounts, the same disambiguators and the same observed market
/// state receive the same outcome and, on success, the same settled state.
pub proof fn lemma_settlement_deterministic(
    a1: BuyListing,
    p1: BuyListingParams,
    st1: MarketState,
    metadata_valid1: bool,
    a2: BuyListing,
    p2: BuyListingParams,
    st2: MarketState,
    metadata_valid2: bool,
)
    requires
        a1 == a2,
        p1 == p2,
        st1 == st2,
        metadata_valid1 == metadata_valid2,
    ensures
        settle_outcome(a1, p1, st1, metadata_valid1) == settle_outcome(
            a2,
            p2,
            st2,
            metadata_valid2,
        ),
        settled_state(a1, st1) == settled_state(a2, st2),
{
}

/// Law: balance-gated skip. With a treasury balance strictly between zero
/// and the buyer's reward amount, the buyer payout is skipped in full —
/// never paid partially — and the seller payout is evaluated against the
/// unchanged treasury balance, independently of the skip.
pub proof fn lemma_balance_gated_skip(a: BuyListing, st: MarketState)
    requires
        a.reward_center.valid_split(),
        st.seller_reward_balance + seller_payout_of(a.reward_center.reward_rules, a.listing.price) <= u64::MAX,
        0 < st.treasury_balance < buyer_payout_of(a.reward_center.reward_rules, a.listing.price),
    ensures
        settled_state(a, st).buyer_reward_balance == st.buyer_reward_balance,
        settled_state(a, st).seller_reward_balance == st.seller_reward_balance + gated_payout(
            st.treasury_balance,
            seller_payout_of(a.reward_center.reward_rules, a.listing.price),
        ),
        settled_state(a, st).treasury_balance == st.treasury_balance - gated_payout(
            st.treasury_balance,
            seller_payout_of(a.reward_center.reward_rules, a.listing.price),
        ),
{
    crate::state::lemma_payouts_bounded(a.reward_center, a.listing.price);
}

/// Law: reward depletion never blocks a trade. The outcome of a settlement
/// request does not depend on the treasury balance: two market states that
/// differ only there yield the same outcome, so a settlement that would
/// succeed still succeeds over an empty treasury.
pub proof fn lemma_payout_never_blocks_settlement(
    a: BuyListing,
    p: BuyListingParams,
    st1: MarketState,
    st2: MarketState,
    metadata_valid: bool,
)
    requires
        st1 == (MarketState { treasury_balance: st1.treasury_balance, ..st2 }),
    ensures
        settle_outcome(a, p, st1, metadata_valid) == settle_outcome(a, p, st2, metadata_valid),
{
}

/// Settles a listing: validates every account, asserts the asset metadata,
/// then — as one all-or-nothing unit — deposits the price into escrow,
/// registers the buyer's bid, executes the trade, and finally disburses the
/// balance-gated reward payouts. Any failure leaves the market state
/// exactly as it was; success leaves exactly the settled state.
pub fn handler(
    a: &BuyListing,
    p: &BuyListingParams,
    state: &mut MarketState,
    metadata_valid: bool,
) -> (r: Result<(), SettlementError>)
    requires
        a.reward_center.valid_split(),
        old(state).escrow_balance + a.listing.price <= u64::MAX,
        old(state).seller_payment_balance + a.listing.price <= u64::MAX,
        old(state).buyer_reward_balance + buyer_payout_of(a.reward_center.reward_rules, a.listing.price) <= u64::MAX,
        old(state).seller_reward_balance + seller_payout_of(a.reward_center.reward_rules, a.listing.price) <= u64::MAX,
    ensures
        r == settle_outcome(*a, *p, *old(state), metadata_valid),
        r is Err ==> *final(state) == *old(state),
        r is Ok ==> *final(state) == settled_state(*a, *old(state)),
{
    match validate_accounts(a, p) {
        Err(e) => {
            return Err(e);
        },
        Ok(()) => {},
    }
    if !metadata_valid {
        return Err(SettlementError::InvalidMetadata);
    }
    let price = a.listing.price;
    if state.buyer_payment_balance < price {
        return Err(SettlementError::InsufficientFunds);
    }
    if !(state.listing_open && state.seller_trade_state_open && state.free_trade_state_open
        && !state.buyer_trade_state_open) {
        return Err(SettlementError::TradeStateConflict);
    }
    proof {
        crate::state::lemma_payouts_bounded(a.reward_center, price);
    }
    // Deposit: the buyer's funds move into escrow.
    state.buyer_payment_balance = state.buyer_payment_balance - price;
    state.escrow_balance = state.escrow_balance + price;
    // Bid registration: the buyer's trade state now exists.
    state.buyer_trade_state_open = true;
    // Trade execution: escrow pays the seller, the asset moves to the
    // buyer, and the listing and all three trade states are consumed.
    state.escrow_balance = state.escrow_balance - price;
    state.seller_payment_balance = state.seller_payment_balance + price;
    state.asset_holder = a.buyer;
    state.buyer_trade_state_open = false;
    state.seller_trade_state_open = false;
    state.free_trade_state_open = false;
    state.listing_open = false;
    // Reward payout: buyer first, then the seller against the re-read
    // balance; a payout the treasury cannot cover in full is skipped.
    let (seller_payout, buyer_payout) = a.reward_center.payouts(price);
    let balance = state.treasury_balance;
    if payout_due(balance, buyer_payout) {
        state.treasury_balance = state.treasury_balance - buyer_payout;
        state.buyer_reward_balance = state.buyer_reward_balance + buyer_payout;
    }
    let balance = state.treasury_balance;
    if payout_due(balance, seller_payout) {
        state.treasury_balance = state.treasury_balance - seller_payout;
        state.seller_reward_balance = state.seller_reward_balance + seller_payout;
    }
    Ok(())
}

} // verus!
