//! The payout table: the fewer rolls a bingo took, the larger the multiple of
//! the stake that is paid. All arithmetic is on integers.

use vstd::prelude::*;
use vstd::string::*;

verus! {

/// Numerator and denominator of the multiplier for a bingo after `rolls`
/// rolls.
pub open spec fn spec_multiplier(rolls: u32) -> (u32, u32) {
    if rolls <= 9 {
        (10, 1)
    } else if rolls <= 14 {
        (5, 1)
    } else if rolls <= 19 {
        (3, 1)
    } else if rolls <= 24 {
        (2, 1)
    } else if rolls <= 34 {
        (12, 10)
    } else if rolls <= 44 {
        (8, 10)
    } else {
        (2, 10)
    }
}

/// The multiplier as shown to the player.
pub open spec fn spec_multiplier_label(rolls: u32) -> Seq<char> {
    if rolls <= 9 {
        "10x"@
    } else if rolls <= 14 {
        "5x"@
    } else if rolls <= 19 {
        "3x"@
    } else if rolls <= 24 {
        "2x"@
    } else if rolls <= 34 {
        "1.2x"@
    } else if rolls <= 44 {
        "0.8x"@
    } else {
        "0.2x"@
    }
}

/// The name of the tier that a roll count falls in.
pub open spec fn spec_tier_name(rolls: u32) -> Seq<char> {
    if rolls <= 9 {
        "LEGENDARY"@
    } else if rolls <= 14 {
        "EPIC"@
    } else if rolls <= 19 {
        "RARE"@
    } else if rolls <= 24 {
        "GOOD"@
    } else if rolls <= 34 {
        "NORMAL"@
    } else if rolls <= 44 {
        "REDUCED"@
    } else {
        "MINIMAL"@
    }
}

/// The payout for a stake: the stake times the numerator, clamped at the
/// largest amount, then divided by the denominator and rounded down.
pub open spec fn spec_payout(bet_amount: u128, rolls: u32) -> u128 {
    let (numerator, denominator) = spec_multiplier(rolls);
    let product = if bet_amount * numerator > u128::MAX {
        u128::MAX as int
    } else {
        bet_amount * numerator
    };
    (product / (denominator as int)) as u128
}

/// The multiplier for a bingo after `rolls` rolls: numerator, denominator and
/// label.
pub fn get_multiplier(rolls: u32) -> (tier: (u32, u32, String))
    ensures
        (tier.0, tier.1) == spec_multiplier(rolls),
        tier.2@ == spec_multiplier_label(rolls),
{
    if rolls <= 9 {
        (10, 1, String::from_str("10x"))
    } else if rolls <= 14 {
        (5, 1, String::from_str("5x"))
    } else if rolls <= 19 {
        (3, 1, String::from_str("3x"))
    } else if rolls <= 24 {
        (2, 1, String::from_str("2x"))
    } else if rolls <= 34 {
        (12, 10, String::from_str("1.2x"))
    } else if rolls <= 44 {
        (8, 10, String::from_str("0.8x"))
    } else {
        (2, 10, String::from_str("0.2x"))
    }
}

/// The name of the tier that a roll count falls in.
pub fn tier_name(rolls: u32) -> (name: String)
    ensures
        name@ == spec_tier_name(rolls),
{
    if rolls <= 9 {
        String::from_str("LEGENDARY")
    } else if rolls <= 14 {
        String::from_str("EPIC")
    } else if rolls <= 19 {
        String::from_str("RARE")
    } else if rolls <= 24 {
        String::from_str("GOOD")
    } else if rolls <= 34 {
        String::from_str("NORMAL")
    } else if rolls <= 44 {
        String::from_str("REDUCED")
    } else {
        String::from_str("MINIMAL")
    }
}

/// The payout for a stake at a multiplier of `numerator / denominator`.
pub fn apply_multiplier(bet_amount: u128, numerator: u32, denominator: u32) -> (payout: u128)
    requires
        denominator > 0,
    ensures
        payout == (if bet_amount * numerator > u128::MAX {
            u128::MAX as int
        } else {
            bet_amount * numerator
        }) / (denominator as int),
{
    let product = match bet_amount.checked_mul(numerator as u128) {
        Some(product) => product,
        None => u128::MAX,
    };
    product / (denominator as u128)
}

/// The payout for a bingo after `rolls` rolls on a stake of `bet_amount`.
pub fn calculate_payout(bet_amount: u128, rolls: u32) -> (payout: u128)
    ensures
        payout == spec_payout(bet_amount, rolls),
{
    let (numerator, denominator, _) = get_multiplier(rolls);
    apply_multiplier(bet_amount, numerator, denominator)
}

} // verus!
