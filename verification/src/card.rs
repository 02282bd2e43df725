//! The 5x5 card: how it is dealt from a seed, how a dice sum marks it, and
//! how a completed pattern is detected.

use crate::rng::{create_seed, next_random, spec_create_seed, spec_next_random};
use vstd::prelude::*;

verus! {

/// Number of cells on a card.
pub const CARD_CELLS: usize = 25;

/// Side length of the card.
pub const CARD_SIDE: usize = 5;

/// Row-major index of the centre cell, which is free.
pub const FREE_INDEX: usize = 12;

/// Value stored in the free cell. No dice sum equals it.
pub const FREE_VALUE: u8 = 0;

/// Smallest value in the number pool, the least sum of four dice.
pub const POOL_MIN: u8 = 4;

/// Largest value in the number pool, the greatest sum of four dice.
pub const POOL_MAX: u8 = 24;

/// Number of distinct values in the pool.
pub const POOL_SIZE: usize = 21;

/// A completed pattern, listed in the order in which the detector looks for
/// them.
#[derive(Debug, Clone, Copy, PartialEq, Eq, Structural)]
pub enum BingoType {
    Row0,
    Row1,
    Row2,
    Row3,
    Row4,
    Col0,
    Col1,
    Col2,
    Col3,
    Col4,
    DiagonalMain,
    DiagonalAnti,
    FullCard,
}

/// A card in play.
#[derive(Debug, Clone, Copy, PartialEq, Eq)]
pub struct BingoCard {
    /// Identifier of the game the card was dealt for.
    pub id: u64,
    /// The numbers, row by row. The centre holds `FREE_VALUE`.
    pub numbers: [u8; 25],
    /// Which cells are marked. The centre is marked from the start.
    pub marked: [bool; 25],
    /// Rolls made on this card so far.
    pub rolls_count: u32,
    /// The stake, in atto-units.
    pub bet_amount_atto: u128,
    /// Roll fees paid on this card so far, in atto-units.
    pub total_roll_fees_atto: u128,
    /// Whether the prize of this card has been paid out.
    pub prize_claimed: bool,
}

/// The 25-cell array that holds the first 25 entries of `cells`.
pub open spec fn spec_cells<T>(cells: Seq<T>) -> [T; 25] {
    [
        cells[0],
        cells[1],
        cells[2],
        cells[3],
        cells[4],
        cells[5],
        cells[6],
        cells[7],
        cells[8],
        cells[9],
        cells[10],
        cells[11],
        cells[12],
        cells[13],
        cells[14],
        cells[15],
        cells[16],
        cells[17],
        cells[18],
        cells[19],
        cells[20],
        cells[21],
        cells[22],
        cells[23],
        cells[24],
    ]
}

/// An array of 25 cells is the array of its own entries, and the array of 25
/// given entries holds just those.
pub proof fn lemma_cells<T>(cells: Seq<T>, array: [T; 25])
    ensures
        cells.len() == 25 ==> spec_cells(cells)@ == cells,
        spec_cells(array@) == array,
{
    if cells.len() == 25 {
        assert(spec_cells(cells)@ =~= cells);
    }
    assert(spec_cells(array@) =~= array);
}

// ---------------------------------------------------------------------------
// Dealing
// ---------------------------------------------------------------------------

/// The pool before shuffling: 4, 5, ..., 24.
pub open spec fn spec_initial_pool() -> Seq<u8> {
    Seq::new(POOL_SIZE as nat, |k: int| (k + POOL_MIN) as u8)
}

/// `pool` with the entries at `i` and `j` exchanged.
pub open spec fn spec_swap(pool: Seq<u8>, i: int, j: int) -> Seq<u8> {
    pool.update(i, pool[j]).update(j, pool[i])
}

/// The Fisher-Yates shuffle from position `i` down to 1: each step advances
/// the generator, picks `j` in `0..=i` and exchanges positions `i` and `j`.
pub open spec fn spec_shuffle(pool: Seq<u8>, state: u64, i: nat) -> Seq<u8>
    decreases i,
{
    if i == 0 {
        pool
    } else {
        let next = spec_next_random(state);
        let j = (next % ((i + 1) as u64)) as int;
        spec_shuffle(spec_swap(pool, i as int, j), next, (i - 1) as nat)
    }
}

/// The pool as shuffled for `seed`.
pub open spec fn spec_shuffled_pool(seed: u64) -> Seq<u8> {
    spec_shuffle(spec_initial_pool(), seed, (POOL_SIZE - 1) as nat)
}

/// Position in the pool from which cell `cell` is filled. The 24 cells around
/// the centre are filled in row-major order.
pub open spec fn spec_pool_position(cell: int) -> int {
    if cell < FREE_INDEX {
        cell
    } else {
        cell - 1
    }
}

/// The numbers of a card dealt from a shuffled pool: the centre is free, and
/// the other cells walk the pool, starting over when it is used up.
pub open spec fn spec_numbers_from_pool(pool: Seq<u8>) -> Seq<u8> {
    Seq::new(
        CARD_CELLS as nat,
        |cell: int|
            if cell == FREE_INDEX {
                FREE_VALUE
            } else {
                pool[spec_pool_position(cell) % (POOL_SIZE as int)]
            },
    )
}

/// The numbers of the card dealt for `seed`.
pub open spec fn spec_card_numbers(seed: u64) -> Seq<u8> {
    spec_numbers_from_pool(spec_shuffled_pool(seed))
}

/// The marks of a freshly dealt card: the centre only.
pub open spec fn spec_fresh_marks() -> Seq<bool> {
    Seq::new(CARD_CELLS as nat, |cell: int| cell == FREE_INDEX)
}

/// The card dealt for game `game_id`: its numbers come from the seed mixed
/// from block height, timestamp, the game id as nonce and the game counter;
/// only the centre is marked; nothing is staked or paid yet.
pub open spec fn spec_generate_card(
    block_height: u64,
    timestamp: u64,
    game_counter: u64,
    game_id: u64,
) -> BingoCard {
    BingoCard {
        id: game_id,
        numbers: spec_cells(
            spec_card_numbers(spec_create_seed(block_height, timestamp, game_id, game_counter)),
        ),
        marked: spec_cells(spec_fresh_marks()),
        rolls_count: 0,
        bet_amount_atto: 0,
        total_roll_fees_atto: 0,
        prize_claimed: false,
    }
}

/// A pool holds 21 values from 4 to 24, each of them once.
pub open spec fn pool_is_permutation(pool: Seq<u8>) -> bool {
    &&& pool.len() == POOL_SIZE
    &&& forall|k: int| 0 <= k < pool.len() ==> POOL_MIN <= #[trigger] pool[k] <= POOL_MAX
    &&& forall|a: int, b: int|
        0 <= a < pool.len() && 0 <= b < pool.len() && a != b ==> #[trigger] pool[a]
            != #[trigger] pool[b]
}

/// `value` stands in at least two cells.
pub open spec fn occurs_twice(numbers: Seq<u8>, value: u8) -> bool {
    exists|i: int, j: int|
        0 <= i < j < numbers.len() && #[trigger] numbers[i] == value && #[trigger] numbers[j]
            == value
}

/// At least three different values stand in two cells or more.
pub open spec fn three_values_repeat(numbers: Seq<u8>) -> bool {
    exists|a: u8, b: u8, c: u8|
        a != b && b != c && a != c && #[trigger] occurs_twice(numbers, a) && #[trigger] occurs_twice(
            numbers,
            b,
        ) && #[trigger] occurs_twice(numbers, c)
}

/// What holds of the numbers of every dealt card.
pub open spec fn numbers_well_formed(numbers: Seq<u8>) -> bool {
    &&& numbers.len() == CARD_CELLS
    &&& numbers[FREE_INDEX as int] == FREE_VALUE
    &&& forall|cell: int|
        0 <= cell < CARD_CELLS && cell != FREE_INDEX ==> POOL_MIN <= #[trigger] numbers[cell]
            <= POOL_MAX
    &&& three_values_repeat(numbers)
}

impl BingoCard {
    /// The card's invariant: well-formed numbers and a marked centre.
    pub open spec fn wf(&self) -> bool {
        &&& numbers_well_formed(self.numbers@)
        &&& self.marked[FREE_INDEX as int]
    }

    /// The number at a position. The position must lie on the card.
    pub fn get_number(&self, row: usize, col: usize) -> (number: u8)
        requires
            row * 5 + col < CARD_CELLS,
        ensures
            number == self.numbers[row * 5 + col],
    {
        self.numbers[row * 5 + col]
    }

    /// Whether the cell at a position is marked. The position must lie on the
    /// card.
    pub fn is_marked(&self, row: usize, col: usize) -> (marked: bool)
        requires
            row * 5 + col < CARD_CELLS,
        ensures
            marked == self.marked[row * 5 + col],
    {
        self.marked[row * 5 + col]
    }

    /// Marks the cell at a position and leaves everything else as it is. The
    /// position must lie on the card.
    pub fn mark(&mut self, row: usize, col: usize)
        requires
            row * 5 + col < CARD_CELLS,
        ensures
            final(self).marked@ == old(self).marked@.update(row * 5 + col, true),
            final(self).numbers == old(self).numbers,
            final(self).id == old(self).id,
            final(self).rolls_count == old(self).rolls_count,
            final(self).bet_amount_atto == old(self).bet_amount_atto,
            final(self).total_roll_fees_atto == old(self).total_roll_fees_atto,
            final(self).prize_claimed == old(self).prize_claimed,
            old(self).wf() ==> final(self).wf(),
    {
        self.marked[row * 5 + col] = true;
        assert(self.marked@ =~= old(self).marked@.update(row * 5 + col, true));
    }
}

/// A swap inside a permutation of the pool gives a permutation of the pool.
pub proof fn lemma_swap_keeps_permutation(pool: Seq<u8>, i: int, j: int)
    requires
        pool_is_permutation(pool),
        0 <= i < pool.len(),
        0 <= j < pool.len(),
    ensures
        pool_is_permutation(spec_swap(pool, i, j)),
{
    let swapped = spec_swap(pool, i, j);
    assert forall|a: int, b: int|
        0 <= a < swapped.len() && 0 <= b < swapped.len() && a != b implies #[trigger] swapped[a]
        != #[trigger] swapped[b] by {
        let pa = if a == i {
            j
        } else if a == j {
            i
        } else {
            a
        };
        let pb = if b == i {
            j
        } else if b == j {
            i
        } else {
            b
        };
        assert(swapped[a] == pool[pa]);
        assert(swapped[b] == pool[pb]);
        assert(pa != pb);
    }
}

/// The shuffle rearranges the pool: whatever the generator state, its result
/// holds each of the pool's values once.
pub proof fn lemma_shuffle_is_permutation(pool: Seq<u8>, state: u64, i: nat)
    requires
        pool_is_permutation(pool),
        i < pool.len(),
    ensures
        pool_is_permutation(spec_shuffle(pool, state, i)),
    decreases i,
{
    if i > 0 {
        let next = spec_next_random(state);
        let j = (next % ((i + 1) as u64)) as int;
        lemma_swap_keeps_permutation(pool, i as int, j);
        lemma_shuffle_is_permutation(spec_swap(pool, i as int, j), next, (i - 1) as nat);
    }
}

/// A card dealt from a permutation of the pool has well-formed numbers: the
/// last three cells repeat the first three, which differ from one another.
pub proof fn lemma_numbers_from_permutation(pool: Seq<u8>)
    requires
        pool_is_permutation(pool),
    ensures
        numbers_well_formed(spec_numbers_from_pool(pool)),
{
    let numbers = spec_numbers_from_pool(pool);
    assert(numbers[0] == pool[0] && numbers[22] == pool[0]);
    assert(numbers[1] == pool[1] && numbers[23] == pool[1]);
    assert(numbers[2] == pool[2] && numbers[24] == pool[2]);
    assert(occurs_twice(numbers, pool[0]));
    assert(occurs_twice(numbers, pool[1]));
    assert(occurs_twice(numbers, pool[2]));
    assert forall|cell: int| 0 <= cell < CARD_CELLS && cell != FREE_INDEX implies POOL_MIN
        <= #[trigger] numbers[cell] <= POOL_MAX by {
        let p = spec_pool_position(cell) % (POOL_SIZE as int);
        assert(numbers[cell] == pool[p]);
    }
}

/// Every seed deals a card with a free centre, every other cell between 4 and
/// 24, and at least three values that repeat.
pub proof fn lemma_dealt_numbers_well_formed(seed: u64)
    ensures
        numbers_well_formed(spec_card_numbers(seed)),
        pool_is_permutation(spec_shuffled_pool(seed)),
{
    let initial = spec_initial_pool();
    assert(pool_is_permutation(initial));
    lemma_shuffle_is_permutation(initial, seed, (POOL_SIZE - 1) as nat);
    lemma_numbers_from_permutation(spec_shuffled_pool(seed));
}

/// Deals the card of game `game_id`. The seed is mixed from the block height,
/// the timestamp, the game id as nonce and the game counter; nothing else
/// enters the card.
pub fn generate_card(block_height: u64, timestamp: u64, game_counter: u64, game_id: u64) -> (card:
    BingoCard)
    ensures
        card == spec_generate_card(block_height, timestamp, game_counter, game_id),
        card.numbers@ == spec_card_numbers(
            spec_create_seed(block_height, timestamp, game_id, game_counter),
        ),
        card.marked@ == spec_fresh_marks(),
        card.wf(),
{
    let seed = create_seed(block_height, timestamp, game_id, game_counter);

    let mut pool: [u8; 21] = [0u8; 21];
    let mut k: usize = 0;
    while k < 21
        invariant
            k <= 21,
            forall|m: int| 0 <= m < k ==> #[trigger] pool[m] == (m + POOL_MIN) as u8,
        decreases 21 - k,
    {
        pool[k] = (k as u8) + POOL_MIN;
        k += 1;
    }
    assert(pool@ =~= spec_initial_pool());

    let mut rng_state: u64 = seed;
    let mut i: usize = 20;
    while i >= 1
        invariant
            i <= 20,
            spec_shuffle(pool@, rng_state, i as nat) == spec_shuffled_pool(seed),
        decreases i,
    {
        let ghost before = pool@;
        rng_state = next_random(rng_state);
        let j: usize = (rng_state % (i as u64 + 1)) as usize;
        let held: u8 = pool[i];
        pool[i] = pool[j];
        pool[j] = held;
        assert(pool@ =~= spec_swap(before, i as int, j as int));
        i -= 1;
    }

    let mut numbers: [u8; 25] = [0u8; 25];
    let mut marked: [bool; 25] = [false; 25];
    let mut pool_idx: usize = 0;
    let mut cell: usize = 0;
    while cell < 25
        invariant
            cell <= 25,
            pool_idx == if cell <= FREE_INDEX { cell as int } else { cell - 1 },
            pool@ == spec_shuffled_pool(seed),
            forall|m: int|
                0 <= m < cell ==> #[trigger] numbers[m] == spec_card_numbers(seed)[m],
            forall|m: int| 0 <= m < 25 ==> #[trigger] marked[m] == (m < cell && m == FREE_INDEX),
        decreases 25 - cell,
    {
        if cell == 12 {
            numbers[cell] = FREE_VALUE;
            marked[cell] = true;
        } else {
            numbers[cell] = pool[pool_idx % 21];
            pool_idx += 1;
        }
        cell += 1;
    }
    assert(numbers@ =~= spec_card_numbers(seed));
    assert(marked@ =~= spec_fresh_marks());
    proof {
        lemma_dealt_numbers_well_formed(seed);
        lemma_cells(spec_card_numbers(seed), numbers);
        lemma_cells(spec_fresh_marks(), marked);
    }
    BingoCard {
        id: game_id,
        numbers,
        marked,
        rolls_count: 0,
        bet_amount_atto: 0,
        total_roll_fees_atto: 0,
        prize_claimed: false,
    }
}

// ---------------------------------------------------------------------------
// Marking
// ---------------------------------------------------------------------------

/// Cell `cell` holds `sum` and is not marked yet.
pub open spec fn spec_is_hit(numbers: Seq<u8>, marked: Seq<bool>, sum: u8, cell: int) -> bool {
    numbers[cell] == sum && !marked[cell]
}

/// How many of the first `upto` cells a roll of `sum` newly marks.
pub open spec fn spec_hit_count(numbers: Seq<u8>, marked: Seq<bool>, sum: u8, upto: nat) -> nat
    decreases upto,
{
    if upto == 0 {
        0
    } else {
        spec_hit_count(numbers, marked, sum, (upto - 1) as nat) + if spec_is_hit(
            numbers,
            marked,
            sum,
            upto - 1,
        ) {
            1nat
        } else {
            0nat
        }
    }
}

/// The last of the first `upto` cells that a roll of `sum` newly marks.
pub open spec fn spec_last_hit(numbers: Seq<u8>, marked: Seq<bool>, sum: u8, upto: nat) -> Option<
    int,
>
    decreases upto,
{
    if upto == 0 {
        None
    } else if spec_is_hit(numbers, marked, sum, upto - 1) {
        Some(upto - 1)
    } else {
        spec_last_hit(numbers, marked, sum, (upto - 1) as nat)
    }
}

/// The marks after a roll of `sum`: what was marked stays marked, and every
/// cell that holds `sum` is marked too.
pub open spec fn spec_marks_after(numbers: Seq<u8>, marked: Seq<bool>, sum: u8) -> Seq<bool> {
    Seq::new(CARD_CELLS as nat, |cell: int| marked[cell] || numbers[cell] == sum)
}

/// The card after a roll of `sum`: the marks change, nothing else does.
pub open spec fn spec_card_marked(card: BingoCard, sum: u8) -> BingoCard {
    BingoCard { marked: spec_cells(spec_marks_after(card.numbers@, card.marked@, sum)), ..card }
}

/// Row and column of a cell.
pub open spec fn spec_position(cell: int) -> (u8, u8) {
    ((cell / 5) as u8, (cell % 5) as u8)
}

/// The position reported for a roll: that of the last cell newly marked.
pub open spec fn spec_match_position(numbers: Seq<u8>, marked: Seq<bool>, sum: u8) -> Option<
    (u8, u8),
> {
    match spec_last_hit(numbers, marked, sum, CARD_CELLS as nat) {
        Some(cell) => Some(spec_position(cell)),
        None => None,
    }
}

/// The count of newly marked cells is at most the number of cells looked at,
/// and it is positive exactly if there is a last hit, which is then a cell
/// that holds the sum and was not marked.
pub proof fn lemma_hit_count_bounds(numbers: Seq<u8>, marked: Seq<bool>, sum: u8, upto: nat)
    ensures
        spec_hit_count(numbers, marked, sum, upto) <= upto,
        spec_hit_count(numbers, marked, sum, upto) > 0 <==> spec_last_hit(
            numbers,
            marked,
            sum,
            upto,
        ) is Some,
        spec_last_hit(numbers, marked, sum, upto) matches Some(cell) ==> 0 <= cell < upto
            && spec_is_hit(numbers, marked, sum, cell),
    decreases upto,
{
    if upto > 0 {
        lemma_hit_count_bounds(numbers, marked, sum, (upto - 1) as nat);
    }
}

/// Marks every unmarked cell that holds `sum`. Returns whether any cell was
/// marked, the position (row, column) of the last one, and how many there
/// were.
pub fn mark_number_on_card(card: &mut BingoCard, sum: u8) -> (result: (bool, Option<(u8, u8)>, u32))
    ensures
        *final(card) == spec_card_marked(*old(card), sum),
        final(card).marked@ == spec_marks_after(old(card).numbers@, old(card).marked@, sum),
        result.2 == spec_hit_count(old(card).numbers@, old(card).marked@, sum, CARD_CELLS as nat),
        result.1 == spec_match_position(old(card).numbers@, old(card).marked@, sum),
        result.0 == (result.2 > 0),
        result.0 == (result.1 is Some),
        old(card).wf() ==> final(card).wf(),
{
    let mut matched = false;
    let mut last_pos: Option<(u8, u8)> = None;
    let mut count: u32 = 0;
    let mut cell: usize = 0;
    while cell < 25
        invariant
            cell <= 25,
            card.numbers == old(card).numbers,
            card.id == old(card).id,
            card.rolls_count == old(card).rolls_count,
            card.bet_amount_atto == old(card).bet_amount_atto,
            card.total_roll_fees_atto == old(card).total_roll_fees_atto,
            card.prize_claimed == old(card).prize_claimed,
            forall|m: int|
                0 <= m < cell ==> #[trigger] card.marked[m] == (old(card).marked[m] || old(
                    card,
                ).numbers[m] == sum),
            forall|m: int| cell <= m < 25 ==> #[trigger] card.marked[m] == old(card).marked[m],
            count == spec_hit_count(old(card).numbers@, old(card).marked@, sum, cell as nat),
            count <= cell,
            matched == (count > 0),
            last_pos == match spec_last_hit(
                old(card).numbers@,
                old(card).marked@,
                sum,
                cell as nat,
            ) {
                Some(c) => Some(spec_position(c)),
                None => None,
            },
        decreases 25 - cell,
    {
        if card.numbers[cell] == sum && !card.marked[cell] {
            card.marked[cell] = true;
            matched = true;
            last_pos = Some(((cell / 5) as u8, (cell % 5) as u8));
            count += 1;
        }
        cell += 1;
    }
    assert(card.marked@ =~= spec_marks_after(old(card).numbers@, old(card).marked@, sum));
    proof {
        lemma_cells(spec_marks_after(old(card).numbers@, old(card).marked@, sum), card.marked);
        lemma_hit_count_bounds(old(card).numbers@, old(card).marked@, sum, CARD_CELLS as nat);
    }
    (matched, last_pos, count)
}

// ---------------------------------------------------------------------------
// Detection
// ---------------------------------------------------------------------------

/// The five cells `start`, `start + step`, ... are all marked.
pub open spec fn spec_line_complete(marked: Seq<bool>, start: int, step: int) -> bool {
    &&& marked[start]
    &&& marked[start + step]
    &&& marked[start + 2 * step]
    &&& marked[start + 3 * step]
    &&& marked[start + 4 * step]
}

/// Row `row` is complete.
pub open spec fn spec_row_complete(marked: Seq<bool>, row: int) -> bool {
    spec_line_complete(marked, row * 5, 1)
}

/// Column `col` is complete.
pub open spec fn spec_col_complete(marked: Seq<bool>, col: int) -> bool {
    spec_line_complete(marked, col, 5)
}

/// The diagonal from the top left to the bottom right is complete.
pub open spec fn spec_main_diagonal_complete(marked: Seq<bool>) -> bool {
    spec_line_complete(marked, 0, 6)
}

/// The diagonal from the top right to the bottom left is complete.
pub open spec fn spec_anti_diagonal_complete(marked: Seq<bool>) -> bool {
    spec_line_complete(marked, 4, 4)
}

/// Every cell is marked.
pub open spec fn spec_full_card(marked: Seq<bool>) -> bool {
    forall|cell: int| 0 <= cell < CARD_CELLS ==> #[trigger] marked[cell]
}

/// The pattern named for row `row`.
pub open spec fn spec_row_type(row: int) -> BingoType {
    if row == 0 {
        BingoType::Row0
    } else if row == 1 {
        BingoType::Row1
    } else if row == 2 {
        BingoType::Row2
    } else if row == 3 {
        BingoType::Row3
    } else {
        BingoType::Row4
    }
}

/// The pattern named for column `col`.
pub open spec fn spec_col_type(col: int) -> BingoType {
    if col == 0 {
        BingoType::Col0
    } else if col == 1 {
        BingoType::Col1
    } else if col == 2 {
        BingoType::Col2
    } else if col == 3 {
        BingoType::Col3
    } else {
        BingoType::Col4
    }
}

/// The first complete row among rows `from..5`, if there is one.
pub open spec fn spec_first_row(marked: Seq<bool>, from: int) -> Option<int>
    decreases 5 - from,
{
    if from >= 5 {
        None
    } else if spec_row_complete(marked, from) {
        Some(from)
    } else {
        spec_first_row(marked, from + 1)
    }
}

/// The first complete column among columns `from..5`, if there is one.
pub open spec fn spec_first_col(marked: Seq<bool>, from: int) -> Option<int>
    decreases 5 - from,
{
    if from >= 5 {
        None
    } else if spec_col_complete(marked, from) {
        Some(from)
    } else {
        spec_first_col(marked, from + 1)
    }
}

/// The pattern the detector reports: the first complete one in the order
/// rows 0 to 4, columns 0 to 4, main diagonal, anti-diagonal, full card.
pub open spec fn spec_check_bingo(marked: Seq<bool>) -> Option<BingoType> {
    if let Some(row) = spec_first_row(marked, 0) {
        Some(spec_row_type(row))
    } else if let Some(col) = spec_first_col(marked, 0) {
        Some(spec_col_type(col))
    } else if spec_main_diagonal_complete(marked) {
        Some(BingoType::DiagonalMain)
    } else if spec_anti_diagonal_complete(marked) {
        Some(BingoType::DiagonalAnti)
    } else if spec_full_card(marked) {
        Some(BingoType::FullCard)
    } else {
        None
    }
}

/// Whether the five cells `start`, `start + step`, ... are all marked.
fn line_complete(marked: &[bool; 25], start: usize, step: usize) -> (complete: bool)
    requires
        start + 4 * step < CARD_CELLS,
    ensures
        complete == spec_line_complete(marked@, start as int, step as int),
{
    marked[start] && marked[start + step] && marked[start + 2 * step] && marked[start + 3 * step]
        && marked[start + 4 * step]
}

/// The pattern named for a row index below 5.
fn row_type(row: usize) -> (pattern: BingoType)
    requires
        row < CARD_SIDE,
    ensures
        pattern == spec_row_type(row as int),
{
    if row == 0 {
        BingoType::Row0
    } else if row == 1 {
        BingoType::Row1
    } else if row == 2 {
        BingoType::Row2
    } else if row == 3 {
        BingoType::Row3
    } else {
        BingoType::Row4
    }
}

/// The pattern named for a column index below 5.
fn col_type(col: usize) -> (pattern: BingoType)
    requires
        col < CARD_SIDE,
    ensures
        pattern == spec_col_type(col as int),
{
    if col == 0 {
        BingoType::Col0
    } else if col == 1 {
        BingoType::Col1
    } else if col == 2 {
        BingoType::Col2
    } else if col == 3 {
        BingoType::Col3
    } else {
        BingoType::Col4
    }
}

/// Whether every cell is marked.
fn full_card(marked: &[bool; 25]) -> (full: bool)
    ensures
        full == spec_full_card(marked@),
{
    let mut cell: usize = 0;
    while cell < 25
        invariant
            cell <= 25,
            forall|m: int| 0 <= m < cell ==> #[trigger] marked[m],
        decreases 25 - cell,
    {
        if !marked[cell] {
            return false;
        }
        cell += 1;
    }
    true
}

/// Looks for a completed pattern and reports the first one in the fixed
/// order: rows 0 to 4, columns 0 to 4, main diagonal, anti-diagonal, full
/// card.
pub fn check_bingo_on_card(card: &BingoCard) -> (found: Option<BingoType>)
    ensures
        found == spec_check_bingo(card.marked@),
{
    let mut row: usize = 0;
    while row < 5
        invariant
            row <= 5,
            spec_first_row(card.marked@, 0) == spec_first_row(card.marked@, row as int),
        decreases 5 - row,
    {
        if line_complete(&card.marked, row * 5, 1) {
            return Some(row_type(row));
        }
        row += 1;
    }
    let mut col: usize = 0;
    while col < 5
        invariant
            col <= 5,
            spec_first_row(card.marked@, 0) is None,
            spec_first_col(card.marked@, 0) == spec_first_col(card.marked@, col as int),
        decreases 5 - col,
    {
        if line_complete(&card.marked, col, 5) {
            return Some(col_type(col));
        }
        col += 1;
    }
    if line_complete(&card.marked, 0, 6) {
        return Some(BingoType::DiagonalMain);
    }
    if line_complete(&card.marked, 4, 4) {
        return Some(BingoType::DiagonalAnti);
    }
    if full_card(&card.marked) {
        return Some(BingoType::FullCard);
    }
    None
}

/// Priority: a complete row is reported before anything else, whatever else
/// is complete. A grid with row 0 and column 0 both complete yields row 0.
pub proof fn lemma_rows_come_first(marked: Seq<bool>, row: int)
    requires
        marked.len() == CARD_CELLS,
        0 <= row < 5,
        spec_row_complete(marked, row),
        forall|above: int| 0 <= above < row ==> !spec_row_complete(marked, above),
    ensures
        spec_check_bingo(marked) == Some(spec_row_type(row)),
{
    reveal_with_fuel(spec_first_row, 6);
    if row >= 1 {
        assert(!spec_row_complete(marked, 0));
    }
    if row >= 2 {
        assert(!spec_row_complete(marked, 1));
    }
    if row >= 3 {
        assert(!spec_row_complete(marked, 2));
    }
    if row >= 4 {
        assert(!spec_row_complete(marked, 3));
    }
}

/// With row 0 complete the detector reports row 0, also where column 0 or any
/// other pattern is complete as well.
pub proof fn lemma_row0_beats_col0(marked: Seq<bool>)
    requires
        marked.len() == CARD_CELLS,
        spec_row_complete(marked, 0),
    ensures
        spec_check_bingo(marked) == Some(BingoType::Row0),
{
    lemma_rows_come_first(marked, 0);
}

/// Totality at the lower end: the detector reports nothing exactly if no
/// row, column or diagonal is complete. A grid with no mark yields nothing.
pub proof fn lemma_nothing_found(marked: Seq<bool>)
    requires
        marked.len() == CARD_CELLS,
    ensures
        spec_check_bingo(marked) is None <==> {
            &&& forall|row: int| 0 <= row < 5 ==> !spec_row_complete(marked, row)
            &&& forall|col: int| 0 <= col < 5 ==> !spec_col_complete(marked, col)
            &&& !spec_main_diagonal_complete(marked)
            &&& !spec_anti_diagonal_complete(marked)
        },
        (forall|cell: int| 0 <= cell < CARD_CELLS ==> !#[trigger] marked[cell])
            ==> spec_check_bingo(marked) is None,
{
    reveal_with_fuel(spec_first_row, 6);
    reveal_with_fuel(spec_first_col, 6);
    if spec_full_card(marked) {
        assert(spec_row_complete(marked, 0));
    }
    if forall|cell: int| 0 <= cell < CARD_CELLS ==> !#[trigger] marked[cell] {
        assert(!marked[0]);
        assert(!marked[5]);
        assert(!marked[10]);
        assert(!marked[15]);
        assert(!marked[20]);
        assert(!marked[1]);
        assert(!marked[2]);
        assert(!marked[3]);
        assert(!marked[4]);
    }
}

/// Totality at the upper end: a grid with every cell marked yields row 0,
/// the first rule that it meets. For the same reason the full card is never
/// what the detector reports: a full card has a complete row.
pub proof fn lemma_full_card_is_row0(marked: Seq<bool>)
    requires
        marked.len() == CARD_CELLS,
    ensures
        spec_full_card(marked) ==> spec_check_bingo(marked) == Some(BingoType::Row0),
        spec_check_bingo(marked) != Some(BingoType::FullCard),
{
    reveal_with_fuel(spec_first_row, 6);
    reveal_with_fuel(spec_first_col, 6);
    if spec_full_card(marked) {
        assert(spec_row_complete(marked, 0));
    }
}

/// A card with only its centre marked has no complete pattern.
pub proof fn lemma_fresh_card_has_no_bingo(card: BingoCard)
    requires
        card.marked@ == spec_fresh_marks(),
    ensures
        spec_check_bingo(card.marked@) is None,
{
    let marked = card.marked@;
    lemma_nothing_found(marked);
    assert(!marked[0]);
    assert(!marked[1]);
    assert(!marked[2]);
    assert(!marked[3]);
    assert(!marked[4]);
    assert(!marked[5]);
    assert(!marked[10]);
    assert(!marked[15]);
    assert(!marked[20]);
}

impl Default for BingoCard {
    /// A blank card: every number zero, no cell marked, nothing staked. It
    /// is not a card that was dealt.
    fn default() -> (card: BingoCard)
        ensures
            card.id == 0,
            forall|cell: int| 0 <= cell < CARD_CELLS ==> card.numbers[cell] == 0,
            forall|cell: int| 0 <= cell < CARD_CELLS ==> !card.marked[cell],
            card.rolls_count == 0,
            card.bet_amount_atto == 0,
            card.total_roll_fees_atto == 0,
            !card.prize_claimed,
    {
        BingoCard {
            id: 0,
            numbers: [0u8; 25],
            marked: [false; 25],
            rolls_count: 0,
            bet_amount_atto: 0,
            total_roll_fees_atto: 0,
            prize_claimed: false,
        }
    }
}

} // verus!
