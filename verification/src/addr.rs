//! Address derivation and validation.
//!
//! Every account the settlement engine touches lives at a deterministic
//! address derived from a namespace tag, an ordered tuple of identity
//! fields, and a single disambiguator byte (the "bump"). A caller-supplied
//! account is trusted only after its address has been re-derived here and
//! compared byte for byte.

use vstd::bytes::spec_u64_to_le_bytes;
use vstd::bytes::u64_to_le_bytes;
use vstd::prelude::*;
use vstd::slice::slice_to_vec;
use vstd::string::StringSliceAdditionalSpecFns;

verus! {

/// A 32-byte account address.
#[derive(Clone, Copy, Debug, PartialEq, Eq, Hash)]
pub struct Address {
    pub bytes: [u8; 32],
}

impl View for Address {
    type V = Seq<u8>;

    open spec fn view(&self) -> Seq<u8> {
        self.bytes@
    }
}

/// Byte-for-byte equality of two addresses.
pub fn address_eq(a: &Address, b: &Address) -> (r: bool)
    ensures
        r == (a@ == b@),
{
    let mut i: usize = 0;
    while i < 32
        invariant
            i <= 32,
            forall|j: int| 0 <= j < i ==> a@[j] == b@[j],
        decreases 32 - i,
    {
        if a.bytes[i] != b.bytes[i] {
            assert(a@[i as int] != b@[i as int]);
            return false;
        }
        i = i + 1;
    }
    proof {
        assert(a@ =~= b@);
    }
    true
}

/// The address that the external runtime derives from a seed tuple under a
/// program id, or `None` where the tuple yields no valid derived address.
pub uninterp spec fn pda_of(seeds: Seq<Seq<u8>>, program_id: Seq<u8>) -> Option<Seq<u8>>;

/// Relies on solana_program's Pubkey::create_program_address: the derived
/// address is a pure function of the seed tuple and the program id alone
/// (a SHA-256 digest), and derivation fails exactly when that function has
/// no valid result for the tuple.
#[verifier::external_body]
fn create_program_address(seeds: &Vec<Vec<u8>>, program_id: &Address) -> (r: Option<Address>)
    ensures
        match r {
            Some(a) => pda_of(seeds.deep_view(), program_id@) == Some(a@),
            None => pda_of(seeds.deep_view(), program_id@) is None,
        },
{
    let seed_refs: Vec<&[u8]> = seeds.iter().map(|s| s.as_slice()).collect();
    let program = solana_program::pubkey::Pubkey::new_from_array(program_id.bytes);
    match solana_program::pubkey::Pubkey::create_program_address(&seed_refs, &program) {
        Ok(key) => Some(Address { bytes: key.to_bytes() }),
        Err(_) => None,
    }
}

/// Copies an address into a freshly allocated seed.
fn address_seed(a: &Address) -> (r: Vec<u8>)
    ensures
        r@ == a@,
{
    slice_to_vec(a.bytes.as_slice())
}

/// A single-byte seed holding the derivation disambiguator.
fn bump_seed(bump: u8) -> (r: Vec<u8>)
    ensures
        r@ == seq![bump],
{
    let mut v: Vec<u8> = Vec::new();
    v.push(bump);
    proof {
        assert(v@ =~= seq![bump]);
    }
    v
}

/// A namespace tag as a seed.
fn tag_seed(tag: &str) -> (r: Vec<u8>)
    ensures
        r@ == tag.spec_bytes(),
{
    slice_to_vec(tag.as_bytes())
}

/// A price or quantity as a seed, in little-endian bytes.
fn amount_seed(x: u64) -> (r: Vec<u8>)
    ensures
        r@ == spec_u64_to_le_bytes(x),
{
    u64_to_le_bytes(x)
}

/// Holds exactly when `r` is what derivation under (`seeds`, `program_id`)
/// returns: the derived address where one exists, and `None` otherwise.
pub open spec fn derives_to(seeds: Seq<Seq<u8>>, program_id: Seq<u8>, r: Option<Address>) -> bool {
    match r {
        Some(a) => pda_of(seeds, program_id) == Some(a@),
        None => pda_of(seeds, program_id) is None,
    }
}

/// A claimed address is accepted only when derivation yields exactly it.
pub open spec fn derivation_ok(seeds: Seq<Seq<u8>>, program_id: Seq<u8>, claimed: Seq<u8>) -> bool {
    pda_of(seeds, program_id) == Some(claimed)
}

/// Law: address derivation is deterministic. Re-deriving from the same seed
/// tuple (identity fields and disambiguator alike) under the same program
/// yields the same outcome, bytes for bytes.
pub proof fn lemma_derivation_deterministic(
    seeds1: Seq<Seq<u8>>,
    program1: Seq<u8>,
    seeds2: Seq<Seq<u8>>,
    program2: Seq<u8>,
)
    requires
        seeds1 == seeds2,
        program1 == program2,
    ensures
        pda_of(seeds1, program1) == pda_of(seeds2, program2),
{
}

/// Seed tuple of a listing record: one listing per
/// (seller, asset metadata, reward center) triple.
pub open spec fn listing_seeds(
    seller: Seq<u8>,
    metadata: Seq<u8>,
    reward_center: Seq<u8>,
    bump: u8,
) -> Seq<Seq<u8>> {
    seq!["listing".spec_bytes(), seller, metadata, reward_center, seq![bump]]
}

/// Seed tuple of a reward center: one per auction-house instance.
pub open spec fn reward_center_seeds(auction_house: Seq<u8>, bump: u8) -> Seq<Seq<u8>> {
    seq!["reward_center".spec_bytes(), auction_house, seq![bump]]
}

/// Seed tuple of a buyer's escrow account, scoped per
/// (auction-house instance, buyer wallet).
pub open spec fn escrow_seeds(auction_house: Seq<u8>, wallet: Seq<u8>, bump: u8) -> Seq<Seq<u8>> {
    seq!["auction_house".spec_bytes(), auction_house, wallet, seq![bump]]
}

/// Seed tuple of an auction-house instance.
pub open spec fn auction_house_seeds(
    creator: Seq<u8>,
    treasury_mint: Seq<u8>,
    bump: u8,
) -> Seq<Seq<u8>> {
    seq!["auction_house".spec_bytes(), creator, treasury_mint, seq![bump]]
}

/// Seed tuple of an auction-house instance's fee account.
pub open spec fn fee_account_seeds(auction_house: Seq<u8>, bump: u8) -> Seq<Seq<u8>> {
    seq!["auction_house".spec_bytes(), auction_house, "fee_payer".spec_bytes(), seq![bump]]
}

/// Seed tuple of an auction-house instance's treasury account.
pub open spec fn treasury_account_seeds(auction_house: Seq<u8>, bump: u8) -> Seq<Seq<u8>> {
    seq!["auction_house".spec_bytes(), auction_house, "treasury".spec_bytes(), seq![bump]]
}

/// Seed tuple of a buyer trade state: the buyer's open buy intent for
/// `token_size` units of `token_mint` at `price`.
pub open spec fn buyer_trade_state_seeds(
    wallet: Seq<u8>,
    auction_house: Seq<u8>,
    treasury_mint: Seq<u8>,
    token_mint: Seq<u8>,
    price: u64,
    token_size: u64,
    bump: u8,
) -> Seq<Seq<u8>> {
    seq![
        "auction_house".spec_bytes(),
        wallet,
        auction_house,
        treasury_mint,
        token_mint,
        spec_u64_to_le_bytes(price),
        spec_u64_to_le_bytes(token_size),
        seq![bump],
    ]
}

/// Seed tuple of a seller trade state: the seller's open sell intent for the
/// asset held in `token_account`. The standing ask carries the maximum
/// sentinel price; the "free" variant used for direct execution carries
/// price zero.
pub open spec fn seller_trade_state_seeds(
    wallet: Seq<u8>,
    auction_house: Seq<u8>,
    token_account: Seq<u8>,
    treasury_mint: Seq<u8>,
    token_mint: Seq<u8>,
    price: u64,
    token_size: u64,
    bump: u8,
) -> Seq<Seq<u8>> {
    seq![
        "auction_house".spec_bytes(),
        wallet,
        auction_house,
        token_account,
        treasury_mint,
        token_mint,
        spec_u64_to_le_bytes(price),
        spec_u64_to_le_bytes(token_size),
        seq![bump],
    ]
}

/// Seed tuple of the auctioneer-delegation record the auction house keeps
/// for a reward center.
pub open spec fn auctioneer_seeds(
    auction_house: Seq<u8>,
    auctioneer_authority: Seq<u8>,
    bump: u8,
) -> Seq<Seq<u8>> {
    seq!["auctioneer".spec_bytes(), auction_house, auctioneer_authority, seq![bump]]
}

/// Seed tuple of the auction-house program's own signing account.
pub open spec fn program_as_signer_seeds(bump: u8) -> Seq<Seq<u8>> {
    seq!["auction_house".spec_bytes(), "signer".spec_bytes(), seq![bump]]
}

/// Derives the address of a listing record under the reward-center program.
pub fn derive_listing_address(
    seller: &Address,
    metadata: &Address,
    reward_center: &Address,
    bump: u8,
    program_id: &Address,
) -> (r: Option<Address>)
    ensures
        derives_to(listing_seeds(seller@, metadata@, reward_center@, bump), program_id@, r),
{
    let mut seeds: Vec<Vec<u8>> = Vec::new();
    seeds.push(tag_seed("listing"));
    seeds.push(address_seed(seller));
    seeds.push(address_seed(metadata));
    seeds.push(address_seed(reward_center));
    seeds.push(bump_seed(bump));
    proof {
        assert(seeds.deep_view() =~~= listing_seeds(seller@, metadata@, reward_center@, bump));
    }
    create_program_address(&seeds, program_id)
}

/// Derives the address of a reward center under the reward-center program.
pub fn derive_reward_center_address(
    auction_house: &Address,
    bump: u8,
    program_id: &Address,
) -> (r: Option<Address>)
    ensures
        derives_to(reward_center_seeds(auction_house@, bump), program_id@, r),
{
    let mut seeds: Vec<Vec<u8>> = Vec::new();
    seeds.push(tag_seed("reward_center"));
    seeds.push(address_seed(auction_house));
    seeds.push(bump_seed(bump));
    proof {
        assert(seeds.deep_view() =~~= reward_center_seeds(auction_house@, bump));
    }
    create_program_address(&seeds, program_id)
}

/// Derives the address of a buyer's escrow account under the auction-house
/// program.
pub fn derive_escrow_address(
    auction_house: &Address,
    wallet: &Address,
    bump: u8,
    program_id: &Address,
) -> (r: Option<Address>)
    ensures
        derives_to(escrow_seeds(auction_house@, wallet@, bump), program_id@, r),
{
    let mut seeds: Vec<Vec<u8>> = Vec::new();
    seeds.push(tag_seed("auction_house"));
    seeds.push(address_seed(auction_house));
    seeds.push(address_seed(wallet));
    seeds.push(bump_seed(bump));
    proof {
        assert(seeds.deep_view() =~~= escrow_seeds(auction_house@, wallet@, bump));
    }
    create_program_address(&seeds, program_id)
}

/// Derives the address of an auction-house instance under the auction-house
/// program.
pub fn derive_auction_house_address(
    creator: &Address,
    treasury_mint: &Address,
    bump: u8,
    program_id: &Address,
) -> (r: Option<Address>)
    ensures
        derives_to(auction_house_seeds(creator@, treasury_mint@, bump), program_id@, r),
{
    let mut seeds: Vec<Vec<u8>> = Vec::new();
    seeds.push(tag_seed("auction_house"));
    seeds.push(address_seed(creator));
    seeds.push(address_seed(treasury_mint));
    seeds.push(bump_seed(bump));
    proof {
        assert(seeds.deep_view() =~~= auction_house_seeds(creator@, treasury_mint@, bump));
    }
    create_program_address(&seeds, program_id)
}

/// Derives the address of an auction-house fee account.
pub fn derive_fee_account_address(
    auction_house: &Address,
    bump: u8,
    program_id: &Address,
) -> (r: Option<Address>)
    ensures
        derives_to(fee_account_seeds(auction_house@, bump), program_id@, r),
{
    let mut seeds: Vec<Vec<u8>> = Vec::new();
    seeds.push(tag_seed("auction_house"));
    seeds.push(address_seed(auction_house));
    seeds.push(tag_seed("fee_payer"));
    seeds.push(bump_seed(bump));
    proof {
        assert(seeds.deep_view() =~~= fee_account_seeds(auction_house@, bump));
    }
    create_program_address(&seeds, program_id)
}

/// Derives the address of an auction-house treasury account.
pub fn derive_treasury_account_address(
    auction_house: &Address,
    bump: u8,
    program_id: &Address,
) -> (r: Option<Address>)
    ensures
        derives_to(treasury_account_seeds(auction_house@, bump), program_id@, r),
{
    let mut seeds: Vec<Vec<u8>> = Vec::new();
    seeds.push(tag_seed("auction_house"));
    seeds.push(address_seed(auction_house));
    seeds.push(tag_seed("treasury"));
    seeds.push(bump_seed(bump));
    proof {
        assert(seeds.deep_view() =~~= treasury_account_seeds(auction_house@, bump));
    }
    create_program_address(&seeds, program_id)
}

/// Derives the address of a buyer trade state.
pub fn derive_buyer_trade_state_address(
    wallet: &Address,
    auction_house: &Address,
    treasury_mint: &Address,
    token_mint: &Address,
    price: u64,
    token_size: u64,
    bump: u8,
    program_id: &Address,
) -> (r: Option<Address>)
    ensures
        derives_to(
            buyer_trade_state_seeds(
                wallet@,
                auction_house@,
                treasury_mint@,
                token_mint@,
                price,
                token_size,
                bump,
            ),
            program_id@,
            r,
        ),
{
    let mut seeds: Vec<Vec<u8>> = Vec::new();
    seeds.push(tag_seed("auction_house"));
    seeds.push(address_seed(wallet));
    seeds.push(address_seed(auction_house));
    seeds.push(address_seed(treasury_mint));
    seeds.push(address_seed(token_mint));
    seeds.push(amount_seed(price));
    seeds.push(amount_seed(token_size));
    seeds.push(bump_seed(bump));
    proof {
        assert(seeds.deep_view() =~~= buyer_trade_state_seeds(
            wallet@,
            auction_house@,
            treasury_mint@,
            token_mint@,
            price,
            token_size,
            bump,
        ));
    }
    create_program_address(&seeds, program_id)
}

/// Derives the address of a seller trade state (standing ask or the
/// zero-price "free" variant, according to `price`).
pub fn derive_seller_trade_state_address(
    wallet: &Address,
    auction_house: &Address,
    token_account: &Address,
    treasury_mint: &Address,
    token_mint: &Address,
    price: u64,
    token_size: u64,
    bump: u8,
    program_id: &Address,
) -> (r: Option<Address>)
    ensures
        derives_to(
            seller_trade_state_seeds(
                wallet@,
                auction_house@,
                token_account@,
                treasury_mint@,
                token_mint@,
                price,
                token_size,
                bump,
            ),
            program_id@,
            r,
        ),
{
    let mut seeds: Vec<Vec<u8>> = Vec::new();
    seeds.push(tag_seed("auction_house"));
    seeds.push(address_seed(wallet));
    seeds.push(address_seed(auction_house));
    seeds.push(address_seed(token_account));
    seeds.push(address_seed(treasury_mint));
    seeds.push(address_seed(token_mint));
    seeds.push(amount_seed(price));
    seeds.push(amount_seed(token_size));
    seeds.push(bump_seed(bump));
    proof {
        assert(seeds.deep_view() =~~= seller_trade_state_seeds(
            wallet@,
            auction_house@,
            token_account@,
            treasury_mint@,
            token_mint@,
            price,
            token_size,
            bump,
        ));
    }
    create_program_address(&seeds, program_id)
}

/// Derives the address of the auctioneer-delegation record for a reward
/// center.
pub fn derive_auctioneer_address(
    auction_house: &Address,
    auctioneer_authority: &Address,
    bump: u8,
    program_id: &Address,
) -> (r: Option<Address>)
    ensures
        derives_to(auctioneer_seeds(auction_house@, auctioneer_authority@, bump), program_id@, r),
{
    let mut seeds: Vec<Vec<u8>> = Vec::new();
    seeds.push(tag_seed("auctioneer"));
    seeds.push(address_seed(auction_house));
    seeds.push(address_seed(auctioneer_authority));
    seeds.push(bump_seed(bump));
    proof {
        assert(seeds.deep_view() =~~= auctioneer_seeds(
            auction_house@,
            auctioneer_authority@,
            bump,
        ));
    }
    create_program_address(&seeds, program_id)
}

/// Derives the address of the auction-house program's signing account.
pub fn derive_program_as_signer_address(bump: u8, program_id: &Address) -> (r: Option<Address>)
    ensures
        derives_to(program_as_signer_seeds(bump), program_id@, r),
{
    let mut seeds: Vec<Vec<u8>> = Vec::new();
    seeds.push(tag_seed("auction_house"));
    seeds.push(tag_seed("signer"));
    seeds.push(bump_seed(bump));
    proof {
        assert(seeds.deep_view() =~~= program_as_signer_seeds(bump));
    }
    create_program_address(&seeds, program_id)
}

} // verus!
