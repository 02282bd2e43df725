//! What holds of every operation and of every state that the operations
//! reach.

use crate::abi::Operation;
use crate::card::{
    lemma_cells,
    lemma_dealt_numbers_well_formed,
    lemma_fresh_card_has_no_bingo,
    spec_card_marked,
    spec_card_numbers,
    spec_fresh_marks,
    spec_generate_card,
    spec_marks_after,
};
use crate::model::{
    needs_session,
    operation_fits,
    spec_draw,
    spec_execute,
    spec_new_card,
    spec_operation_error,
    spec_roll_bingo,
    spec_roll_sum,
};
use crate::rng::{lemma_dice_bounds, spec_create_seed, spec_dice_state};
use crate::session::GameSession;
use crate::state::{drawn_numbers_well_formed, GamePhase, StateModel};
use crate::ROLL_COST;
use vstd::prelude::*;

verus! {

/// Drawing a dice sum keeps the drawn numbers distinct dice sums.
pub proof fn lemma_draw_keeps_well_formed(drawn: Seq<u8>, sum: u8)
    requires
        drawn_numbers_well_formed(drawn),
        4 <= sum <= 24,
    ensures
        drawn_numbers_well_formed(spec_draw(drawn, sum)),
{
    if !drawn.contains(sum) {
        let after = drawn.push(sum);
        assert forall|a: int, b: int|
            0 <= a < after.len() && 0 <= b < after.len() && a != b implies after[a]
            != after[b] by {
            if a == drawn.len() {
                assert(drawn[b] != sum);
            } else if b == drawn.len() {
                assert(drawn[a] != sum);
            }
        }
    }
}

/// The running totals of the ledger never go down, whatever the operation
/// and whether it succeeds or not. Only the available balance can fall.
pub proof fn lemma_totals_never_decrease(
    s: StateModel,
    operation: Operation,
    now_micros: u64,
    block_height: u64,
)
    ensures
        spec_execute(s, operation, now_micros, block_height).player_balance.totals_not_below(
            s.player_balance,
        ),
{
}

/// A debit is validated before it is applied: where an operation goes
/// through, the available balance falls by exactly what was charged or
/// withdrawn, and that was available.
pub proof fn lemma_debits_are_covered(
    s: StateModel,
    operation: Operation,
    now_micros: u64,
    block_height: u64,
)
    requires
        spec_operation_error(s, operation, now_micros) is None,
    ensures
        operation matches Operation::NewGame { bet_amount_atto } ==> spec_execute(
            s,
            operation,
            now_micros,
            block_height,
        ).player_balance.available_atto == s.player_balance.available_atto - bet_amount_atto,
        operation is RollAndMatch ==> spec_execute(
            s,
            operation,
            now_micros,
            block_height,
        ).player_balance.available_atto == s.player_balance.available_atto - ROLL_COST,
        operation matches Operation::Withdraw { amount } ==> spec_execute(
            s,
            operation,
            now_micros,
            block_height,
        ).player_balance.available_atto == s.player_balance.available_atto - amount,
{
}

/// The phases of a game follow one another. A new game starts play. A roll
/// is made in play only and ends it exactly if it completes a pattern. A
/// claim is made on a won game only and closes it. Ending the session leaves
/// no game. Everything else leaves the phase alone.
pub proof fn lemma_phases_follow_one_another(
    s: StateModel,
    operation: Operation,
    now_micros: u64,
    block_height: u64,
)
    requires
        spec_operation_error(s, operation, now_micros) is None,
    ensures
        ({
            let after = spec_execute(s, operation, now_micros, block_height);
            match operation {
                Operation::NewGame { .. } => after.phase() == GamePhase::InProgress,
                Operation::RollAndMatch => {
                    &&& s.phase() == GamePhase::InProgress
                    &&& after.phase() == if spec_roll_bingo(
                        s,
                        s.current_card->0,
                        now_micros,
                        block_height,
                    ) is Some {
                        GamePhase::Won
                    } else {
                        GamePhase::InProgress
                    }
                },
                Operation::ClaimPrize => s.phase() == GamePhase::Won && after.phase()
                    == GamePhase::Claimed,
                Operation::EndSession => after.phase() == GamePhase::NoGame,
                _ => after.phase() == s.phase(),
            }
        }),
{
}

/// The invariant of the state: every operation that is within the machine's
/// limits takes a well-formed state to a well-formed state. So every state
/// reached from the initial one has a well-formed card, a pending prize
/// exactly while a completed pattern is unpaid, distinct dice sums as drawn
/// numbers, and a history within its limit.
pub proof fn lemma_operations_keep_the_invariant(
    s: StateModel,
    operation: Operation,
    now_micros: u64,
    block_height: u64,
)
    requires
        s.wf(),
    ensures
        spec_execute(s, operation, now_micros, block_height).wf(),
        StateModel::spec_initial().wf(),
{
    let after = spec_execute(s, operation, now_micros, block_height);
    if spec_operation_error(s, operation, now_micros) is None {
        match operation {
            Operation::NewGame { bet_amount_atto } => {
                let game_id = (s.game_counter + 1) as u64;
                let dealt = spec_generate_card(block_height, now_micros, game_id, game_id);
                let seed = spec_create_seed(block_height, now_micros, game_id, game_id);
                lemma_dealt_numbers_well_formed(seed);
                lemma_cells(spec_card_numbers(seed), dealt.numbers);
                lemma_cells(spec_fresh_marks(), dealt.marked);
                let card = spec_new_card(s, bet_amount_atto, now_micros, block_height);
                assert(card.marked@ == spec_fresh_marks());
                lemma_fresh_card_has_no_bingo(card);
            },
            Operation::RollAndMatch => {
                let card = s.current_card->0;
                let sum = spec_roll_sum(s, card, now_micros, block_height);
                lemma_dice_bounds(
                    spec_dice_state(
                        block_height,
                        now_micros,
                        card.rolls_count as u64,
                        s.game_counter,
                        s.total_games,
                    ),
                );
                lemma_draw_keeps_well_formed(s.drawn_numbers, sum);
                lemma_cells(
                    spec_marks_after(card.numbers@, card.marked@, sum),
                    spec_card_marked(card, sum).marked,
                );
            },
            _ => {},
        }
    }
}

/// Every operation of play that goes through is counted on the session: a
/// new game, a roll and a claim each raise the session's operation count by
/// one and leave the rest of the session as it was.
pub proof fn lemma_play_is_counted(
    s: StateModel,
    operation: Operation,
    now_micros: u64,
    block_height: u64,
)
    requires
        needs_session(operation),
        spec_operation_error(s, operation, now_micros) is None,
        operation_fits(s, operation, now_micros, block_height),
    ensures
        s.active_session is Some,
        spec_execute(s, operation, now_micros, block_height).active_session == Some(
            GameSession {
                operations_count: (s.active_session->0.operations_count + 1) as u64,
                ..s.active_session->0
            },
        ),
        spec_execute(
            s,
            operation,
            now_micros,
            block_height,
        ).active_session->0.operations_count == s.active_session->0.operations_count + 1,
{
}

} // verus!
