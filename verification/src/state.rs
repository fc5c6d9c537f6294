//! Account records consumed by settlement: the listing, the reward center
//! with its payout rules, the external auction-house instance, and plain
//! token accounts.

use crate::addr::Address;
use vstd::prelude::*;

verus! {

/// A balance-holding token account, reduced to the fields settlement reads:
/// its storage address, the mint of the token it holds, and its owner.
#[derive(Clone, Copy, Debug, PartialEq, Eq)]
pub struct TokenAccount {
    pub address: Address,
    pub mint: Address,
    pub owner: Address,
}

/// An active sell offer: one listing per (seller, asset metadata, reward
/// center) triple, bound to that triple through its derived address.
#[derive(Clone, Copy, Debug, PartialEq, Eq)]
pub struct Listing {
    /// Storage address of the listing record.
    pub address: Address,
    /// Wallet of the seller who created the listing.
    pub seller: Address,
    /// Metadata account describing the asset for sale.
    pub metadata: Address,
    /// Negotiated price in payment-token units.
    pub price: u64,
    /// Quantity of the asset for sale.
    pub token_size: u64,
    /// Derivation disambiguator stored when the listing was created.
    pub bump: u8,
}

/// The payout split a reward center was configured with, in basis points of
/// the trade price. A split is valid when the two shares together do not
/// exceed the whole price; validity is enforced when the reward center is
/// created.
#[derive(Clone, Copy, Debug, PartialEq, Eq, Structural)]
pub struct RewardRules {
    pub seller_reward_payout_basis_points: u16,
    pub buyer_reward_payout_basis_points: u16,
}

/// Configuration and delegated-authority identity of one marketplace
/// instance: it signs the staged auction-house calls and its treasury funds
/// the reward payouts.
#[derive(Clone, Copy, Debug, PartialEq, Eq)]
pub struct RewardCenter {
    /// Storage address of the reward center record.
    pub address: Address,
    /// Mint of the reward token it disburses.
    pub token_mint: Address,
    /// The auction-house instance it wraps.
    pub auction_house: Address,
    /// Configured payout split.
    pub reward_rules: RewardRules,
    /// Derivation disambiguator of its own address.
    pub bump: u8,
}

pub const BASIS_POINTS: u64 = 10000;

/// The seller's reward for a trade at `price`.
pub open spec fn seller_payout_of(rules: RewardRules, price: u64) -> int {
    price * rules.seller_reward_payout_basis_points / (BASIS_POINTS as int)
}

/// The buyer's reward for a trade at `price`.
pub open spec fn buyer_payout_of(rules: RewardRules, price: u64) -> int {
    price * rules.buyer_reward_payout_basis_points / (BASIS_POINTS as int)
}

impl RewardCenter {
    /// A valid split grants at most the whole price across both parties.
    pub open spec fn valid_split(&self) -> bool {
        self.reward_rules.seller_reward_payout_basis_points
            + self.reward_rules.buyer_reward_payout_basis_points <= BASIS_POINTS
    }

    /// Computes the (seller, buyer) reward amounts for a trade at
    /// `listing_price`: each party's configured share of the price, in
    /// basis points, rounded down. Deterministic and free of side effects.
    pub fn payouts(&self, listing_price: u64) -> (r: (u64, u64))
        requires
            self.valid_split(),
        ensures
            r.0 == seller_payout_of(self.reward_rules, listing_price),
            r.1 == buyer_payout_of(self.reward_rules, listing_price),
    {
        let seller_bps = self.reward_rules.seller_reward_payout_basis_points;
        let buyer_bps = self.reward_rules.buyer_reward_payout_basis_points;
        proof {
            lemma_share_le_price(listing_price, seller_bps);
            lemma_share_le_price(listing_price, buyer_bps);
        }
        let seller_payout: u64 = ((listing_price as u128) * (seller_bps as u128)
            / (BASIS_POINTS as u128)) as u64;
        let buyer_payout: u64 = ((listing_price as u128) * (buyer_bps as u128)
            / (BASIS_POINTS as u128)) as u64;
        (seller_payout, buyer_payout)
    }
}

/// A basis-point share of a price never exceeds the price itself.
proof fn lemma_share_le_price(price: u64, bps: u16)
    requires
        bps <= BASIS_POINTS,
    ensures
        0 <= price * bps / (BASIS_POINTS as int) <= price,
{
    assert(price * bps / (BASIS_POINTS as int) <= price) by (nonlinear_arith)
        requires
            bps <= 10000,
            price >= 0,
    ;
    assert(price * bps >= 0) by (nonlinear_arith)
        requires
            price >= 0,
            bps >= 0,
    ;
}

/// Law: the payout amounts are a pure function of the split configuration
/// and the price, and together they never exceed the configured overall
/// share of the price; in particular they never exceed the price itself, so
/// no funds are invented.
pub proof fn lemma_payouts_bounded(rc: RewardCenter, price: u64)
    requires
        rc.valid_split(),
    ensures
        seller_payout_of(rc.reward_rules, price) + buyer_payout_of(rc.reward_rules, price)
            <= price * (rc.reward_rules.seller_reward_payout_basis_points
            + rc.reward_rules.buyer_reward_payout_basis_points) / (BASIS_POINTS as int),
        seller_payout_of(rc.reward_rules, price) + buyer_payout_of(rc.reward_rules, price)
            <= price,
        0 <= seller_payout_of(rc.reward_rules, price),
        0 <= buyer_payout_of(rc.reward_rules, price),
{
    let s = rc.reward_rules.seller_reward_payout_basis_points as int;
    let b = rc.reward_rules.buyer_reward_payout_basis_points as int;
    let p = price as int;
    lemma_share_le_price(price, rc.reward_rules.seller_reward_payout_basis_points);
    lemma_share_le_price(price, rc.reward_rules.buyer_reward_payout_basis_points);
    assert(p * s / 10000 + p * b / 10000 <= p * (s + b) / 10000) by (nonlinear_arith)
        requires
            p >= 0,
            s >= 0,
            b >= 0,
    ;
    assert(p * (s + b) / 10000 <= p) by (nonlinear_arith)
        requires
            p >= 0,
            0 <= s + b <= 10000,
    ;
}

/// The auction-house instance wrapped by a reward center, reduced to the
/// stored fields settlement re-derives and cross-checks.
#[derive(Clone, Copy, Debug, PartialEq, Eq)]
pub struct AuctionHouse {
    /// Storage address of the auction-house record.
    pub address: Address,
    /// Wallet that created the instance; a component of its derivation.
    pub creator: Address,
    /// Mint of the payment token the instance trades in.
    pub treasury_mint: Address,
    /// Stored address of the instance's fee account.
    pub auction_house_fee_account: Address,
    /// Stored address of the instance's treasury account.
    pub auction_house_treasury: Address,
    /// Derivation disambiguators stored when the instance was created.
    pub bump: u8,
    pub fee_payer_bump: u8,
    pub treasury_bump: u8,
}

/// The auctioneer-delegation record the auction house keeps for a reward
/// center: its existence is the reward center's delegated authority.
#[derive(Clone, Copy, Debug, PartialEq, Eq)]
pub struct Auctioneer {
    pub address: Address,
    pub bump: u8,
}

} // verus!
