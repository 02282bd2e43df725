use flashport::rng::{create_seed, dice_sum, generate_dice_roll, next_random};

#[test]
fn create_seed_known_values() {
    assert_eq!(create_seed(100, 1_000_000_000, 1, 1), 2533585817284413273);
    assert_eq!(create_seed(0, 0, 0, 0), 0);
    assert_eq!(create_seed(u64::MAX, u64::MAX, u64::MAX, u64::MAX), 1636362701634150776);
}

#[test]
fn create_seed_is_a_function_of_its_inputs() {
    let a = create_seed(12, 34, 56, 78);
    let b = create_seed(12, 34, 56, 78);
    assert_eq!(a, b);
    assert_ne!(create_seed(12, 34, 56, 79), a);
    assert_ne!(create_seed(13, 34, 56, 78), a);
}

#[test]
fn next_random_known_values() {
    assert_eq!(next_random(0), 1);
    assert_eq!(next_random(1), 48272);
    assert_eq!(next_random(12345), 595905496);
    assert_eq!(next_random(2147483646), 2147435377);
    assert_eq!(next_random(2147483647), 1);
    assert_eq!(next_random(u64::MAX), 2147435381);
}

#[test]
fn next_random_stays_below_the_modulus() {
    let mut state: u64 = 987654321;
    for _ in 0..1000 {
        state = next_random(state);
        assert!(state < 2147483647);
    }
}

#[test]
fn dice_known_values() {
    assert_eq!(generate_dice_roll(100, 1_000_000_000, 0, 1, 1), [1, 5, 3, 6]);
    assert_eq!(generate_dice_roll(100, 1_000_000_000, 1, 1, 1), [6, 5, 2, 6]);
    assert_eq!(generate_dice_roll(100, 1_000_000_000, 2, 1, 1), [3, 1, 1, 6]);
    assert_eq!(generate_dice_roll(5, 77, 2, 9, 4), [4, 4, 1, 4]);
    assert_eq!(
        generate_dice_roll(u64::MAX, u64::MAX, u64::MAX, u64::MAX, u64::MAX),
        [3, 3, 2, 2]
    );
}

#[test]
fn dice_from_a_zero_state_are_all_ones() {
    assert_eq!(generate_dice_roll(0, 0, 0, 0, 0), [1, 1, 1, 1]);
}

#[test]
fn dice_are_in_range_and_repeatable() {
    for height in 0..20u64 {
        for nonce in 0..20u64 {
            let dice = generate_dice_roll(height, 1_700_000_000_000_000 + height, nonce, 3, 7);
            for die in dice.iter() {
                assert!(*die >= 1 && *die <= 6);
            }
            let sum = dice_sum(&dice);
            assert!(sum >= 4 && sum <= 24);
            assert_eq!(sum, dice[0] + dice[1] + dice[2] + dice[3]);
            assert_eq!(dice, generate_dice_roll(height, 1_700_000_000_000_000 + height, nonce, 3, 7));
        }
    }
}

#[test]
fn dice_sum_adds_the_four_dice() {
    assert_eq!(dice_sum(&[1, 1, 1, 1]), 4);
    assert_eq!(dice_sum(&[6, 6, 6, 6]), 24);
    assert_eq!(dice_sum(&[1, 5, 3, 6]), 15);
}
