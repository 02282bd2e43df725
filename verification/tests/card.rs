use flashport::card::{check_bingo_on_card, generate_card, mark_number_on_card};
use flashport::{BingoCard, BingoType};

fn card_with_marks(cells: &[usize]) -> BingoCard {
    let mut card = BingoCard::default();
    for cell in cells {
        card.marked[*cell] = true;
    }
    card
}

#[test]
fn generate_card_known_numbers() {
    let card = generate_card(100, 1_000_000_000, 1, 1);
    assert_eq!(
        card.numbers,
        [16, 13, 19, 12, 14, 6, 11, 24, 9, 7, 23, 21, 0, 17, 8, 18, 4, 5, 10, 15, 22, 20, 16, 13, 19]
    );
    assert_eq!(card.id, 1);
    let second = generate_card(7, 42, 3, 3);
    assert_eq!(
        second.numbers,
        [5, 13, 6, 23, 22, 19, 9, 20, 8, 18, 7, 12, 0, 17, 24, 11, 10, 4, 15, 16, 14, 21, 5, 13, 6]
    );
    assert_eq!(second.id, 3);
}

#[test]
fn generate_card_starts_blank() {
    let card = generate_card(100, 1_000_000_000, 1, 1);
    for cell in 0..25 {
        assert_eq!(card.marked[cell], cell == 12);
    }
    assert_eq!(card.rolls_count, 0);
    assert_eq!(card.bet_amount_atto, 0);
    assert_eq!(card.total_roll_fees_atto, 0);
    assert!(!card.prize_claimed);
    assert_eq!(check_bingo_on_card(&card), None);
}

#[test]
fn card_invariant_holds_for_many_seeds() {
    for height in 0..40u64 {
        for game in 1..40u64 {
            let card = generate_card(height, 1_000_000 * height + 17, game, game);
            assert_eq!(card.numbers[12], 0);
            assert!(card.marked[12]);
            let mut occurrences = [0u32; 25];
            for cell in 0..25 {
                if cell != 12 {
                    assert!(card.numbers[cell] >= 4 && card.numbers[cell] <= 24);
                    occurrences[card.numbers[cell] as usize] += 1;
                }
            }
            let repeated = occurrences.iter().filter(|n| **n >= 2).count();
            assert_eq!(repeated, 3);
            for value in 4..=24usize {
                assert!(occurrences[value] >= 1);
            }
            assert_eq!(card.numbers[22], card.numbers[0]);
            assert_eq!(card.numbers[23], card.numbers[1]);
            assert_eq!(card.numbers[24], card.numbers[2]);
        }
    }
}

#[test]
fn generate_card_is_repeatable() {
    assert_eq!(generate_card(9, 8, 7, 6), generate_card(9, 8, 7, 6));
    assert_ne!(generate_card(9, 8, 7, 6).numbers, generate_card(9, 8, 7, 7).numbers);
}

#[test]
fn get_number_and_is_marked_read_row_major() {
    let card = generate_card(100, 1_000_000_000, 1, 1);
    assert_eq!(card.get_number(0, 0), 16);
    assert_eq!(card.get_number(0, 4), 14);
    assert_eq!(card.get_number(1, 0), 6);
    assert_eq!(card.get_number(2, 2), 0);
    assert_eq!(card.get_number(4, 4), 19);
    assert!(card.is_marked(2, 2));
    assert!(!card.is_marked(0, 0));
    assert!(!card.is_marked(4, 4));
}

#[test]
fn mark_sets_one_cell() {
    let mut card = generate_card(100, 1_000_000_000, 1, 1);
    let before = card;
    card.mark(3, 1);
    for cell in 0..25 {
        assert_eq!(card.marked[cell], before.marked[cell] || cell == 16);
    }
    assert_eq!(card.numbers, before.numbers);
    assert!(card.is_marked(3, 1));
}

#[test]
fn mark_number_marks_every_cell_that_holds_the_sum() {
    let mut card = generate_card(100, 1_000_000_000, 1, 1);
    let (matched, position, count) = mark_number_on_card(&mut card, 19);
    assert!(matched);
    assert_eq!(count, 2);
    assert_eq!(position, Some((4, 4)));
    for cell in 0..25 {
        assert_eq!(card.marked[cell], cell == 12 || cell == 2 || cell == 24);
    }
}

#[test]
fn mark_number_reports_a_single_hit() {
    let mut card = generate_card(100, 1_000_000_000, 1, 1);
    let (matched, position, count) = mark_number_on_card(&mut card, 15);
    assert!(matched);
    assert_eq!(count, 1);
    assert_eq!(position, Some((3, 4)));
    assert!(card.marked[19]);
}

#[test]
fn mark_number_skips_cells_already_marked() {
    let mut card = generate_card(100, 1_000_000_000, 1, 1);
    mark_number_on_card(&mut card, 19);
    let before = card;
    let (matched, position, count) = mark_number_on_card(&mut card, 19);
    assert!(!matched);
    assert_eq!(position, None);
    assert_eq!(count, 0);
    assert_eq!(card, before);
}

#[test]
fn mark_number_with_one_of_two_cells_marked() {
    let mut card = generate_card(100, 1_000_000_000, 1, 1);
    card.mark(4, 4);
    let (matched, position, count) = mark_number_on_card(&mut card, 19);
    assert!(matched);
    assert_eq!(position, Some((0, 2)));
    assert_eq!(count, 1);
}

#[test]
fn mark_number_never_matches_the_free_cell_on_a_dealt_card() {
    let mut card = generate_card(100, 1_000_000_000, 1, 1);
    let before = card;
    let (matched, position, count) = mark_number_on_card(&mut card, 0);
    assert!(!matched);
    assert_eq!(position, None);
    assert_eq!(count, 0);
    assert_eq!(card, before);
}

#[test]
fn detector_finds_nothing_on_an_empty_grid() {
    assert_eq!(check_bingo_on_card(&card_with_marks(&[])), None);
}

#[test]
fn detector_reports_row0_on_a_full_grid() {
    let all: Vec<usize> = (0..25).collect();
    assert_eq!(check_bingo_on_card(&card_with_marks(&all)), Some(BingoType::Row0));
}

#[test]
fn detector_prefers_row0_to_col0() {
    let card = card_with_marks(&[0, 1, 2, 3, 4, 5, 10, 15, 20]);
    assert_eq!(check_bingo_on_card(&card), Some(BingoType::Row0));
}

#[test]
fn detector_names_each_row() {
    let expected = [
        BingoType::Row0,
        BingoType::Row1,
        BingoType::Row2,
        BingoType::Row3,
        BingoType::Row4,
    ];
    for row in 0..5 {
        let cells: Vec<usize> = (0..5).map(|col| row * 5 + col).collect();
        assert_eq!(check_bingo_on_card(&card_with_marks(&cells)), Some(expected[row]));
    }
}

#[test]
fn detector_names_each_column() {
    let expected = [
        BingoType::Col0,
        BingoType::Col1,
        BingoType::Col2,
        BingoType::Col3,
        BingoType::Col4,
    ];
    for col in 0..5 {
        let cells: Vec<usize> = (0..5).map(|row| row * 5 + col).collect();
        assert_eq!(check_bingo_on_card(&card_with_marks(&cells)), Some(expected[col]));
    }
}

#[test]
fn detector_names_the_diagonals() {
    assert_eq!(
        check_bingo_on_card(&card_with_marks(&[0, 6, 12, 18, 24])),
        Some(BingoType::DiagonalMain)
    );
    assert_eq!(
        check_bingo_on_card(&card_with_marks(&[4, 8, 12, 16, 20])),
        Some(BingoType::DiagonalAnti)
    );
}

#[test]
fn detector_follows_the_priority_order() {
    let row3_and_col1 = card_with_marks(&[15, 16, 17, 18, 19, 1, 6, 11, 21]);
    assert_eq!(check_bingo_on_card(&row3_and_col1), Some(BingoType::Row3));
    let col4_and_main = card_with_marks(&[4, 9, 14, 19, 24, 0, 6, 12, 18]);
    assert_eq!(check_bingo_on_card(&col4_and_main), Some(BingoType::Col4));
    let both_diagonals = card_with_marks(&[0, 6, 12, 18, 24, 4, 8, 16, 20]);
    assert_eq!(check_bingo_on_card(&both_diagonals), Some(BingoType::DiagonalMain));
    let two_rows = card_with_marks(&[10, 11, 12, 13, 14, 20, 21, 22, 23, 24]);
    assert_eq!(check_bingo_on_card(&two_rows), Some(BingoType::Row2));
}

#[test]
fn detector_needs_all_five_cells() {
    assert_eq!(check_bingo_on_card(&card_with_marks(&[0, 1, 2, 3])), None);
    assert_eq!(check_bingo_on_card(&card_with_marks(&[0, 5, 10, 15])), None);
    assert_eq!(check_bingo_on_card(&card_with_marks(&[0, 6, 12, 18])), None);
    assert_eq!(check_bingo_on_card(&card_with_marks(&[4, 8, 12, 16])), None);
    let all_but_a_cross: Vec<usize> =
        (0..25).filter(|cell| *cell != 0 && *cell != 6 && *cell != 8 && *cell != 16 && *cell != 24 && *cell != 12).collect();
    assert_eq!(check_bingo_on_card(&card_with_marks(&all_but_a_cross)), None);
}

#[test]
fn default_card_is_blank() {
    let card = BingoCard::default();
    assert_eq!(card.numbers, [0u8; 25]);
    assert_eq!(card.marked, [false; 25]);
    assert_eq!(card.id, 0);
}
