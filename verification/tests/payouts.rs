use reward_center::addr::Address;
use reward_center::state::RewardCenter;
use reward_center::state::RewardRules;

fn addr(n: u8) -> Address {
    Address { bytes: [n; 32] }
}

fn reward_center(seller_bps: u16, buyer_bps: u16) -> RewardCenter {
    RewardCenter {
        address: addr(1),
        token_mint: addr(2),
        auction_house: addr(3),
        reward_rules: RewardRules {
            seller_reward_payout_basis_points: seller_bps,
            buyer_reward_payout_basis_points: buyer_bps,
        },
        bump: 255,
    }
}

#[test]
fn five_percent_split_of_a_thousand() {
    let rc = reward_center(500, 500);
    assert_eq!(rc.payouts(1000), (50, 50));
}

#[test]
fn shares_round_down() {
    let rc = reward_center(500, 500);
    assert_eq!(rc.payouts(999), (49, 49));
    assert_eq!(rc.payouts(19), (0, 0));
}

#[test]
fn asymmetric_split() {
    let rc = reward_center(250, 750);
    assert_eq!(rc.payouts(10_000), (250, 750));
}

#[test]
fn zero_price_pays_nothing() {
    let rc = reward_center(500, 500);
    assert_eq!(rc.payouts(0), (0, 0));
}

#[test]
fn full_split_of_the_largest_price() {
    let rc = reward_center(5000, 5000);
    let (seller, buyer) = rc.payouts(u64::MAX);
    assert_eq!(seller, u64::MAX / 2);
    assert_eq!(buyer, u64::MAX / 2);
    assert!(seller.checked_add(buyer).expect("no overflow") <= u64::MAX);
}
