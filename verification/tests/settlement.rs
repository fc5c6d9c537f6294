use reward_center::addr::Address;
use reward_center::addr::derive_auction_house_address;
use reward_center::addr::derive_auctioneer_address;
use reward_center::addr::derive_buyer_trade_state_address;
use reward_center::addr::derive_escrow_address;
use reward_center::addr::derive_fee_account_address;
use reward_center::addr::derive_listing_address;
use reward_center::addr::derive_program_as_signer_address;
use reward_center::addr::derive_reward_center_address;
use reward_center::addr::derive_seller_trade_state_address;
use reward_center::addr::derive_treasury_account_address;
use reward_center::buy::BuyListing;
use reward_center::buy::BuyListingParams;
use reward_center::buy::FREE_TRADE_STATE_PRICE;
use reward_center::buy::MarketState;
use reward_center::buy::STANDING_ASK_PRICE;
use reward_center::buy::SettlementError;
use reward_center::buy::handler;
use reward_center::buy::validate_accounts;
use reward_center::state::Auctioneer;
use reward_center::state::AuctionHouse;
use reward_center::state::Listing;
use reward_center::state::RewardCenter;
use reward_center::state::RewardRules;
use reward_center::state::TokenAccount;

fn addr(n: u8) -> Address {
    Address { bytes: [n; 32] }
}

fn find_pda<F: Fn(u8) -> Option<Address>>(derive: F) -> (Address, u8) {
    let mut bump: u8 = 255;
    loop {
        if let Some(a) = derive(bump) {
            return (a, bump);
        }
        bump = bump.checked_sub(1).expect("no viable bump");
    }
}

const PRICE: u64 = 1000;
const TOKEN_SIZE: u64 = 1;

/// A request whose every account matches its derivation, for a listing of
/// one asset unit at price 1,000 under a 5%/5% reward split.
fn fixture() -> (BuyListing, BuyListingParams) {
    let reward_center_program = addr(1);
    let auction_house_program = addr(2);
    let buyer = addr(3);
    let seller = addr(4);
    let token_mint = addr(5);
    let metadata = addr(6);
    let treasury_mint = addr(7);
    let reward_mint = addr(8);
    let creator = addr(9);
    let token_account_address = addr(10);

    let (ah_address, ah_bump) =
        find_pda(|b| derive_auction_house_address(&creator, &treasury_mint, b, &auction_house_program));
    let (fee_account, fee_payer_bump) =
        find_pda(|b| derive_fee_account_address(&ah_address, b, &auction_house_program));
    let (treasury_account, treasury_bump) =
        find_pda(|b| derive_treasury_account_address(&ah_address, b, &auction_house_program));
    let (rc_address, rc_bump) =
        find_pda(|b| derive_reward_center_address(&ah_address, b, &reward_center_program));
    let (listing_address, listing_bump) =
        find_pda(|b| derive_listing_address(&seller, &metadata, &rc_address, b, &reward_center_program));
    let (escrow, escrow_payment_bump) =
        find_pda(|b| derive_escrow_address(&ah_address, &buyer, b, &auction_house_program));
    let (buyer_trade_state, buyer_trade_state_bump) = find_pda(|b| {
        derive_buyer_trade_state_address(
            &buyer,
            &ah_address,
            &treasury_mint,
            &token_mint,
            PRICE,
            TOKEN_SIZE,
            b,
            &auction_house_program,
        )
    });
    let (seller_trade_state, seller_trade_state_bump) = find_pda(|b| {
        derive_seller_trade_state_address(
            &seller,
            &ah_address,
            &token_account_address,
            &treasury_mint,
            &token_mint,
            STANDING_ASK_PRICE,
            TOKEN_SIZE,
            b,
            &auction_house_program,
        )
    });
    let (free_seller_trade_state, free_trade_state_bump) = find_pda(|b| {
        derive_seller_trade_state_address(
            &seller,
            &ah_address,
            &token_account_address,
            &treasury_mint,
            &token_mint,
            FREE_TRADE_STATE_PRICE,
            TOKEN_SIZE,
            b,
            &auction_house_program,
        )
    });
    let (auctioneer_address, auctioneer_bump) =
        find_pda(|b| derive_auctioneer_address(&ah_address, &rc_address, b, &auction_house_program));
    let (program_as_signer, program_as_signer_bump) =
        find_pda(|b| derive_program_as_signer_address(b, &auction_house_program));

    let accounts = BuyListing {
        buyer,
        payment_account: addr(11),
        transfer_authority: addr(12),
        buyer_reward_token_account: TokenAccount {
            address: addr(13),
            mint: reward_mint,
            owner: buyer,
        },
        seller,
        seller_reward_token_account: TokenAccount {
            address: addr(14),
            mint: reward_mint,
            owner: seller,
        },
        listing: Listing {
            address: listing_address,
            seller,
            metadata,
            price: PRICE,
            token_size: TOKEN_SIZE,
            bump: listing_bump,
        },
        token_account: TokenAccount {
            address: token_account_address,
            mint: token_mint,
            owner: seller,
        },
        token_mint,
        metadata,
        treasury_mint,
        seller_payment_receipt_account: addr(15),
        buyer_receipt_token_account: addr(16),
        authority: addr(17),
        escrow_payment_account: escrow,
        auction_house: AuctionHouse {
            address: ah_address,
            creator,
            treasury_mint,
            auction_house_fee_account: fee_account,
            auction_house_treasury: treasury_account,
            bump: ah_bump,
            fee_payer_bump,
            treasury_bump,
        },
        auction_house_fee_account: fee_account,
        auction_house_treasury: treasury_account,
        buyer_trade_state,
        seller_trade_state,
        free_seller_trade_state,
        reward_center: RewardCenter {
            address: rc_address,
            token_mint: reward_mint,
            auction_house: ah_address,
            reward_rules: RewardRules {
                seller_reward_payout_basis_points: 500,
                buyer_reward_payout_basis_points: 500,
            },
            bump: rc_bump,
        },
        reward_center_reward_token_account: TokenAccount {
            address: addr(18),
            mint: reward_mint,
            owner: rc_address,
        },
        ah_auctioneer_pda: Auctioneer {
            address: auctioneer_address,
            bump: auctioneer_bump,
        },
        program_as_signer,
        auction_house_program,
        reward_center_program,
    };
    let params = BuyListingParams {
        buyer_trade_state_bump,
        escrow_payment_bump,
        free_trade_state_bump,
        seller_trade_state_bump,
        program_as_signer_bump,
    };
    (accounts, params)
}

fn open_market(accounts: &BuyListing, treasury_balance: u64) -> MarketState {
    MarketState {
        listing_open: true,
        buyer_trade_state_open: false,
        seller_trade_state_open: true,
        free_trade_state_open: true,
        buyer_payment_balance: 5000,
        escrow_balance: 0,
        seller_payment_balance: 0,
        asset_holder: accounts.seller,
        treasury_balance,
        buyer_reward_balance: 0,
        seller_reward_balance: 0,
    }
}

#[test]
fn valid_request_passes_validation() {
    let (accounts, params) = fixture();
    assert_eq!(validate_accounts(&accounts, &params), Ok(()));
}

#[test]
fn successful_trade_settles_and_rewards_both_parties() {
    let (accounts, params) = fixture();
    let mut state = open_market(&accounts, 1000);
    let result = handler(&accounts, &params, &mut state, true);
    assert_eq!(result, Ok(()));
    assert!(!state.listing_open);
    assert!(!state.buyer_trade_state_open);
    assert!(!state.seller_trade_state_open);
    assert!(!state.free_trade_state_open);
    assert_eq!(state.asset_holder, accounts.buyer);
    assert_eq!(state.seller_payment_balance, 1000);
    assert_eq!(state.buyer_payment_balance, 4000);
    assert_eq!(state.escrow_balance, 0);
    assert_eq!(state.buyer_reward_balance, 50);
    assert_eq!(state.seller_reward_balance, 50);
    assert_eq!(state.treasury_balance, 900);
}

#[test]
fn depleted_treasury_skips_both_payouts_but_settles() {
    let (accounts, params) = fixture();
    let mut state = open_market(&accounts, 30);
    let result = handler(&accounts, &params, &mut state, true);
    assert_eq!(result, Ok(()));
    assert_eq!(state.buyer_reward_balance, 0);
    assert_eq!(state.seller_reward_balance, 0);
    assert_eq!(state.treasury_balance, 30);
    assert!(!state.listing_open);
    assert_eq!(state.asset_holder, accounts.buyer);
    assert_eq!(state.seller_payment_balance, 1000);
}

#[test]
fn treasury_covering_only_the_buyer_pays_the_buyer_first() {
    let (accounts, params) = fixture();
    let mut state = open_market(&accounts, 75);
    let result = handler(&accounts, &params, &mut state, true);
    assert_eq!(result, Ok(()));
    assert_eq!(state.buyer_reward_balance, 50);
    assert_eq!(state.seller_reward_balance, 0);
    assert_eq!(state.treasury_balance, 25);
}

#[test]
fn substituted_trade_state_is_rejected_before_any_movement() {
    let (mut accounts, params) = fixture();
    accounts.buyer_trade_state = addr(99);
    let mut state = open_market(&accounts, 1000);
    let before = state;
    let result = handler(&accounts, &params, &mut state, true);
    assert_eq!(result, Err(SettlementError::AddressMismatch));
    assert_eq!(state, before);
    assert!(state.listing_open);
}

#[test]
fn substituted_escrow_account_is_rejected() {
    let (mut accounts, params) = fixture();
    accounts.escrow_payment_account = addr(98);
    let mut state = open_market(&accounts, 1000);
    let before = state;
    let result = handler(&accounts, &params, &mut state, true);
    assert_eq!(result, Err(SettlementError::AddressMismatch));
    assert_eq!(state, before);
}

#[test]
fn reward_center_for_another_auction_house_is_rejected() {
    let (mut accounts, params) = fixture();
    accounts.reward_center.auction_house = addr(97);
    let mut state = open_market(&accounts, 1000);
    let before = state;
    let result = handler(&accounts, &params, &mut state, true);
    assert_eq!(result, Err(SettlementError::AddressMismatch));
    assert_eq!(state, before);
}

#[test]
fn empty_treasury_still_settles_the_trade() {
    let (accounts, params) = fixture();
    let mut state = open_market(&accounts, 0);
    let result = handler(&accounts, &params, &mut state, true);
    assert_eq!(result, Ok(()));
    assert_eq!(state.buyer_reward_balance, 0);
    assert_eq!(state.seller_reward_balance, 0);
    assert_eq!(state.treasury_balance, 0);
    assert!(!state.listing_open);
    assert_eq!(state.asset_holder, accounts.buyer);
    assert_eq!(state.seller_payment_balance, 1000);
}

#[test]
fn double_settlement_conflicts_on_the_second_request() {
    let (accounts, params) = fixture();
    let mut state = open_market(&accounts, 1000);
    assert_eq!(handler(&accounts, &params, &mut state, true), Ok(()));
    let after_first = state;
    let second = handler(&accounts, &params, &mut state, true);
    assert_eq!(second, Err(SettlementError::TradeStateConflict));
    assert_eq!(state, after_first);
}

#[test]
fn mismatched_reward_mint_is_rejected() {
    let (mut accounts, params) = fixture();
    accounts.buyer_reward_token_account.mint = addr(42);
    let mut state = open_market(&accounts, 1000);
    let before = state;
    let result = handler(&accounts, &params, &mut state, true);
    assert_eq!(result, Err(SettlementError::MintMismatch));
    assert_eq!(state, before);
}

#[test]
fn reward_account_owned_by_the_wrong_trader_is_rejected() {
    let (mut accounts, params) = fixture();
    accounts.buyer_reward_token_account.owner = accounts.seller;
    let mut state = open_market(&accounts, 1000);
    let before = state;
    let result = handler(&accounts, &params, &mut state, true);
    assert_eq!(result, Err(SettlementError::OwnerMismatch));
    assert_eq!(state, before);
}

#[test]
fn asset_account_owned_by_another_is_rejected() {
    let (mut accounts, params) = fixture();
    accounts.token_account.owner = accounts.buyer;
    let mut state = open_market(&accounts, 1000);
    let before = state;
    let result = handler(&accounts, &params, &mut state, true);
    assert_eq!(result, Err(SettlementError::AssetOwnerMismatch));
    assert_eq!(state, before);
}

#[test]
fn listing_record_naming_another_seller_is_rejected() {
    let (mut accounts, params) = fixture();
    accounts.listing.seller = addr(96);
    let mut state = open_market(&accounts, 1000);
    let before = state;
    let result = handler(&accounts, &params, &mut state, true);
    assert_eq!(result, Err(SettlementError::AddressMismatch));
    assert_eq!(state, before);
}

#[test]
fn invalid_metadata_is_rejected() {
    let (accounts, params) = fixture();
    let mut state = open_market(&accounts, 1000);
    let before = state;
    let result = handler(&accounts, &params, &mut state, false);
    assert_eq!(result, Err(SettlementError::InvalidMetadata));
    assert_eq!(state, before);
}

#[test]
fn buyer_short_of_the_price_is_rejected() {
    let (accounts, params) = fixture();
    let mut state = open_market(&accounts, 1000);
    state.buyer_payment_balance = PRICE - 1;
    let before = state;
    let result = handler(&accounts, &params, &mut state, true);
    assert_eq!(result, Err(SettlementError::InsufficientFunds));
    assert_eq!(state, before);
}

#[test]
fn stale_listing_without_seller_intent_conflicts() {
    let (accounts, params) = fixture();
    let mut state = open_market(&accounts, 1000);
    state.seller_trade_state_open = false;
    let before = state;
    let result = handler(&accounts, &params, &mut state, true);
    assert_eq!(result, Err(SettlementError::TradeStateConflict));
    assert_eq!(state, before);
}
