//! Seeded pseudo-randomness: the seed mixer, the card shuffle's linear
//! congruential generator and the xorshift stream behind the dice.
//!
//! Nothing here reads a clock or an entropy source. Each value is a function
//! of its arguments, which is what makes a recorded game replayable.

use vstd::prelude::*;

verus! {

/// Multiplier applied to the block height in both mixers.
pub const HEIGHT_MULTIPLIER: u64 = 0xc6a4a7935bd1e995;

/// Multiplier applied to the nonce when a card seed is mixed, and to the
/// sum of scaled height and timestamp when a dice state is mixed.
pub const MIX_MULTIPLIER: u64 = 0x5851f42d4c957f2d;

/// Multiplier applied to the game counter when a card seed is mixed.
pub const COUNTER_MULTIPLIER: u64 = 0x9e3779b97f4a7c15;

/// Multiplier of the finalisation step of the card seed.
pub const FINALIZER_MULTIPLIER: u64 = 0xff51afd7ed558ccd;

/// Multiplier applied to the roll index when a dice state is mixed.
pub const ROLL_NONCE_MULTIPLIER: u64 = 0x2545f4914f6cdd1d;

/// Multiplier applied to the game counter when a dice state is mixed.
pub const ROLL_COUNTER_MULTIPLIER: u64 = 0x1b873593;

/// Multiplier applied to the number of games played when a dice state is mixed.
pub const ROLL_GAMES_MULTIPLIER: u64 = 0xcc9e2d51;

/// Multiplier of the shuffle generator.
pub const LCG_MULTIPLIER: u64 = 48271;

/// Modulus of the shuffle generator, the Mersenne prime 2^31 - 1.
pub const LCG_MODULUS: u64 = 2147483647;

/// The multiply-add combination of the seed inputs, before finalisation.
pub open spec fn spec_seed_combine(
    block_height: u64,
    timestamp: u64,
    nonce: u64,
    counter: u64,
) -> u64 {
    block_height.wrapping_mul(HEIGHT_MULTIPLIER).wrapping_add(timestamp).wrapping_add(
        nonce.wrapping_mul(MIX_MULTIPLIER),
    ).wrapping_add(counter.wrapping_mul(COUNTER_MULTIPLIER))
}

/// The finalisation step: fold the high bits down, multiply, fold again.
pub open spec fn spec_finalize(x: u64) -> u64 {
    let a = x ^ (x >> 33);
    let b = a.wrapping_mul(FINALIZER_MULTIPLIER);
    b ^ (b >> 33)
}

/// The 64-bit seed of a card.
pub open spec fn spec_create_seed(
    block_height: u64,
    timestamp: u64,
    nonce: u64,
    counter: u64,
) -> u64 {
    spec_finalize(spec_seed_combine(block_height, timestamp, nonce, counter))
}

/// One step of the shuffle generator.
pub open spec fn spec_next_random(state: u64) -> u64 {
    state.wrapping_mul(LCG_MULTIPLIER).wrapping_add(1) % LCG_MODULUS
}

/// The state from which the four dice of one roll are drawn.
pub open spec fn spec_dice_state(
    block_height: u64,
    timestamp: u64,
    nonce: u64,
    counter: u64,
    games_played: u64,
) -> u64 {
    block_height.wrapping_mul(HEIGHT_MULTIPLIER).wrapping_add(timestamp).wrapping_mul(
        MIX_MULTIPLIER,
    ).wrapping_add(nonce.wrapping_mul(ROLL_NONCE_MULTIPLIER)).wrapping_add(
        counter.wrapping_mul(ROLL_COUNTER_MULTIPLIER),
    ).wrapping_add(games_played.wrapping_mul(ROLL_GAMES_MULTIPLIER))
}

/// One xorshift64 step with the shift triple 13, 7, 17.
pub open spec fn spec_xorshift(state: u64) -> u64 {
    let a = state ^ (state << 13);
    let b = a ^ (a >> 7);
    b ^ (b << 17)
}

/// The stream state after `draws` steps.
pub open spec fn spec_xorshift_n(state: u64, draws: nat) -> u64
    decreases draws,
{
    if draws == 0 {
        state
    } else {
        spec_xorshift(spec_xorshift_n(state, (draws - 1) as nat))
    }
}

/// The face shown by a die drawn from `state`.
pub open spec fn spec_die_face(state: u64) -> u8 {
    ((state % 6) + 1) as u8
}

/// The four dice of a roll. They are read off one shared stream: the first
/// after one step, the second after two, and so on.
pub open spec fn spec_dice(start: u64) -> [u8; 4] {
    [
        spec_die_face(spec_xorshift_n(start, 1)),
        spec_die_face(spec_xorshift_n(start, 2)),
        spec_die_face(spec_xorshift_n(start, 3)),
        spec_die_face(spec_xorshift_n(start, 4)),
    ]
}

/// The sum of four dice.
pub open spec fn spec_dice_sum(dice: [u8; 4]) -> int {
    dice[0] + dice[1] + dice[2] + dice[3]
}

/// Four dice show faces from 1 to 6.
pub open spec fn dice_in_range(dice: [u8; 4]) -> bool {
    forall|k: int| 0 <= k < 4 ==> 1 <= #[trigger] dice[k] <= 6
}

/// Whatever the stream state, the dice show faces from 1 to 6 and their sum
/// lies between 4 and 24.
pub proof fn lemma_dice_bounds(start: u64)
    ensures
        dice_in_range(spec_dice(start)),
        4 <= spec_dice_sum(spec_dice(start)) <= 24,
{
    let dice = spec_dice(start);
    assert(1 <= dice[0] <= 6);
    assert(1 <= dice[1] <= 6);
    assert(1 <= dice[2] <= 6);
    assert(1 <= dice[3] <= 6);
}

/// Mixes block height, timestamp, nonce and game counter into a card seed.
pub fn create_seed(block_height: u64, timestamp: u64, nonce: u64, counter: u64) -> (seed: u64)
    ensures
        seed == spec_create_seed(block_height, timestamp, nonce, counter),
{
    let mut seed: u64 = block_height.wrapping_mul(HEIGHT_MULTIPLIER).wrapping_add(
        timestamp,
    ).wrapping_add(nonce.wrapping_mul(MIX_MULTIPLIER)).wrapping_add(
        counter.wrapping_mul(COUNTER_MULTIPLIER),
    );
    seed ^= seed >> 33;
    seed = seed.wrapping_mul(FINALIZER_MULTIPLIER);
    seed ^= seed >> 33;
    seed
}

/// Advances the shuffle generator by one step.
pub fn next_random(state: u64) -> (next: u64)
    ensures
        next == spec_next_random(state),
        next < LCG_MODULUS,
{
    state.wrapping_mul(LCG_MULTIPLIER).wrapping_add(1) % LCG_MODULUS
}

/// The sum of four dice.
pub fn dice_sum(dice: &[u8; 4]) -> (sum: u8)
    requires
        dice_in_range(*dice),
    ensures
        sum == spec_dice_sum(*dice),
        4 <= sum <= 24,
{
    dice[0] + dice[1] + dice[2] + dice[3]
}

/// Rolls four dice from one xorshift stream seeded by the inputs.
pub fn generate_dice_roll(
    block_height: u64,
    timestamp: u64,
    nonce: u64,
    counter: u64,
    games_played: u64,
) -> (dice: [u8; 4])
    ensures
        dice == spec_dice(spec_dice_state(block_height, timestamp, nonce, counter, games_played)),
        dice_in_range(dice),
{
    let start: u64 = block_height.wrapping_mul(HEIGHT_MULTIPLIER).wrapping_add(
        timestamp,
    ).wrapping_mul(MIX_MULTIPLIER).wrapping_add(
        nonce.wrapping_mul(ROLL_NONCE_MULTIPLIER),
    ).wrapping_add(counter.wrapping_mul(ROLL_COUNTER_MULTIPLIER)).wrapping_add(
        games_played.wrapping_mul(ROLL_GAMES_MULTIPLIER),
    );
    let mut state: u64 = start;
    let mut dice: [u8; 4] = [0u8; 4];
    let mut k: usize = 0;
    while k < 4
        invariant
            k <= 4,
            state == spec_xorshift_n(start, k as nat),
            forall|i: int|
                0 <= i < k ==> #[trigger] dice[i] == spec_die_face(
                    spec_xorshift_n(start, (i + 1) as nat),
                ),
            forall|i: int| 0 <= i < k ==> 1 <= #[trigger] dice[i] <= 6,
        decreases 4 - k,
    {
        state ^= state << 13;
        state ^= state >> 7;
        state ^= state << 17;
        dice[k] = ((state % 6) + 1) as u8;
        k += 1;
    }
    proof {
        reveal_with_fuel(spec_xorshift_n, 5);
    }
    assert(dice =~= spec_dice(start));
    dice
}

} // verus!
