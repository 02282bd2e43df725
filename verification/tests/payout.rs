use flashport::payout::{apply_multiplier, calculate_payout, get_multiplier, tier_name};

fn tier(rolls: u32) -> (u32, u32, String) {
    get_multiplier(rolls)
}

#[test]
fn payout_boundaries() {
    assert_eq!(tier(9), (10, 1, "10x".to_string()));
    assert_eq!(tier(10), (5, 1, "5x".to_string()));
    assert_eq!(tier(24), (2, 1, "2x".to_string()));
    assert_eq!(tier(25), (12, 10, "1.2x".to_string()));
    assert_eq!(tier(44), (8, 10, "0.8x".to_string()));
    assert_eq!(tier(45), (2, 10, "0.2x".to_string()));
}

#[test]
fn payout_table_in_full() {
    assert_eq!(tier(0), (10, 1, "10x".to_string()));
    assert_eq!(tier(14), (5, 1, "5x".to_string()));
    assert_eq!(tier(15), (3, 1, "3x".to_string()));
    assert_eq!(tier(19), (3, 1, "3x".to_string()));
    assert_eq!(tier(20), (2, 1, "2x".to_string()));
    assert_eq!(tier(34), (12, 10, "1.2x".to_string()));
    assert_eq!(tier(35), (8, 10, "0.8x".to_string()));
    assert_eq!(tier(u32::MAX), (2, 10, "0.2x".to_string()));
}

#[test]
fn tier_names_follow_the_table() {
    assert_eq!(tier_name(0), "LEGENDARY");
    assert_eq!(tier_name(9), "LEGENDARY");
    assert_eq!(tier_name(10), "EPIC");
    assert_eq!(tier_name(15), "RARE");
    assert_eq!(tier_name(20), "GOOD");
    assert_eq!(tier_name(25), "NORMAL");
    assert_eq!(tier_name(35), "REDUCED");
    assert_eq!(tier_name(45), "MINIMAL");
    assert_eq!(tier_name(1000), "MINIMAL");
}

#[test]
fn payout_exact_values() {
    let two_tokens: u128 = 2_000_000_000_000_000_000;
    assert_eq!(calculate_payout(two_tokens, 3), 20_000_000_000_000_000_000);
    assert_eq!(calculate_payout(two_tokens, 12), 10_000_000_000_000_000_000);
    assert_eq!(calculate_payout(two_tokens, 18), 6_000_000_000_000_000_000);
    assert_eq!(calculate_payout(two_tokens, 22), 4_000_000_000_000_000_000);
    assert_eq!(calculate_payout(two_tokens, 30), 2_400_000_000_000_000_000);
    assert_eq!(calculate_payout(two_tokens, 40), 1_600_000_000_000_000_000);
    assert_eq!(calculate_payout(two_tokens, 50), 400_000_000_000_000_000);
}

#[test]
fn payout_rounds_down() {
    assert_eq!(calculate_payout(7, 30), 8);
    assert_eq!(calculate_payout(7, 40), 5);
    assert_eq!(calculate_payout(7, 50), 1);
    assert_eq!(calculate_payout(4, 50), 0);
    assert_eq!(calculate_payout(0, 0), 0);
}

#[test]
fn payout_saturates_before_it_divides() {
    assert_eq!(calculate_payout(u128::MAX, 0), u128::MAX);
    assert_eq!(calculate_payout(u128::MAX, 30), u128::MAX / 10);
    assert_eq!(calculate_payout(u128::MAX / 2, 50), (u128::MAX / 2 * 2) / 10);
    assert_eq!(calculate_payout(u128::MAX / 2 + 1, 50), u128::MAX / 10);
}

#[test]
fn apply_multiplier_is_product_over_denominator() {
    assert_eq!(apply_multiplier(100, 12, 10), 120);
    assert_eq!(apply_multiplier(99, 8, 10), 79);
    assert_eq!(apply_multiplier(u128::MAX, 2, 1), u128::MAX);
}
