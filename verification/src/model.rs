//! What the operations do, as functions on the state model: for each
//! operation the failure it may end in, the state it leads to and the
//! response it gives.

use crate::abi::{Operation, ResponseModel};
use crate::card::{
    spec_card_marked,
    spec_check_bingo,
    spec_generate_card,
    spec_hit_count,
    spec_match_position,
    BingoCard,
    BingoType,
    CARD_CELLS,
};
use crate::decimal::spec_decimal;
use crate::errors::{BalanceError, BetError, ClaimError, EngineError, GameStateError};
use crate::history::{spec_push_record, RollRecord};
use crate::payout::{spec_multiplier_label, spec_payout};
use crate::rng::{spec_dice, spec_dice_state, spec_dice_sum};
use crate::session::{spec_expiry, spec_validate, GameSession};
use crate::state::StateModel;
use crate::{MAX_BET, MIN_BET, ROLL_COST};
use vstd::prelude::*;

verus! {


/// The response that reports a failure.
pub open spec fn spec_error_response(error: EngineError) -> ResponseModel {
    ResponseModel::Error { message: error.spec_message() }
}

/// The session with one more operation counted, if there is a session.
pub open spec fn spec_count_operation(session: Option<GameSession>) -> Option<GameSession> {
    match session {
        Some(s) => Some(GameSession { operations_count: (s.operations_count + 1) as u64, ..s }),
        None => None,
    }
}

/// The operation counter of the session, if there is one, can take one more.
pub open spec fn session_can_count(session: Option<GameSession>) -> bool {
    session matches Some(s) ==> s.operations_count < u64::MAX
}

/// Opening a session is within the machine's limits: the identifier and the
/// expiry time fit in 64 bits.
pub open spec fn start_session_fits(s: StateModel, expires_in_secs: u64, now_micros: u64) -> bool {
    &&& s.session_counter < u64::MAX
    &&& spec_expiry(now_micros, expires_in_secs) <= u64::MAX
}

/// The state after a session is opened. The game is left as it is.
pub open spec fn spec_start_session(
    s: StateModel,
    expires_in_secs: u64,
    now_micros: u64,
) -> StateModel {
    StateModel {
        active_session: Some(
            GameSession::spec_start(s.session_counter, now_micros, expires_in_secs),
        ),
        session_counter: (s.session_counter + 1) as u64,
        ..s
    }
}

/// The response to opening a session.
pub open spec fn spec_start_session_response(
    s: StateModel,
    expires_in_secs: u64,
    now_micros: u64,
) -> ResponseModel {
    ResponseModel::SessionStarted {
        session_id: (s.session_counter + 1) as u64,
        expires_at_micros: spec_expiry(now_micros, expires_in_secs) as u64,
    }
}

/// The state after the session is closed: no session, no card, no drawn
/// numbers, no pending prize, no history. Ledger and counters stay.
pub open spec fn spec_end_session(s: StateModel) -> StateModel {
    StateModel {
        active_session: None,
        current_card: None,
        drawn_numbers: Seq::empty(),
        has_unclaimed_prize: false,
        roll_history: Seq::empty(),
        ..s
    }
}

/// The failure of a deposit, if it fails.
pub open spec fn spec_deposit_error(amount: u128) -> Option<EngineError> {
    if amount == 0 {
        Some(EngineError::Balance(BalanceError::ZeroAmount))
    } else {
        None
    }
}

/// The state after a deposit.
pub open spec fn spec_deposit(s: StateModel, amount: u128) -> StateModel {
    StateModel { player_balance: s.player_balance.spec_deposited(amount), ..s }
}

/// The response to a deposit.
pub open spec fn spec_deposit_response(s: StateModel, amount: u128) -> ResponseModel {
    ResponseModel::DepositReceived {
        amount: spec_decimal(amount as nat),
        new_balance: spec_decimal(s.player_balance.spec_deposited(amount).available_atto as nat),
    }
}

/// The failure of a withdrawal, if it fails.
pub open spec fn spec_withdraw_error(s: StateModel, amount: u128) -> Option<EngineError> {
    match s.player_balance.spec_debit_error(amount) {
        Some(e) => Some(EngineError::Balance(e)),
        None => None,
    }
}

/// The state after a withdrawal.
pub open spec fn spec_withdraw(s: StateModel, amount: u128) -> StateModel {
    StateModel { player_balance: s.player_balance.spec_withdrawn(amount), ..s }
}

/// The response to a withdrawal.
pub open spec fn spec_withdraw_response(s: StateModel, amount: u128) -> ResponseModel {
    ResponseModel::WithdrawalProcessed {
        amount: spec_decimal(amount as nat),
        remaining_balance: spec_decimal(
            s.player_balance.spec_withdrawn(amount).available_atto as nat,
        ),
    }
}

/// The failure of a stake, if it is out of bounds.
pub open spec fn spec_bet_error(bet_amount: u128) -> Option<BetError> {
    if bet_amount < MIN_BET {
        Some(BetError::TooLow)
    } else if bet_amount > MAX_BET {
        Some(BetError::TooHigh)
    } else {
        None
    }
}

/// The failure of a new game, if it fails: the stake is out of bounds, or
/// it is more than what is available.
pub open spec fn spec_new_game_error(s: StateModel, bet_amount: u128) -> Option<EngineError> {
    match spec_bet_error(bet_amount) {
        Some(e) => Some(EngineError::Bet(e)),
        None => match s.player_balance.spec_debit_error(bet_amount) {
            Some(e) => Some(EngineError::Fee(e)),
            None => None,
        },
    }
}

/// Starting a game is within the machine's limits: the counters that it
/// advances can take one more.
pub open spec fn new_game_fits(s: StateModel) -> bool {
    &&& s.game_counter < u64::MAX
    &&& s.total_games < u64::MAX
    &&& session_can_count(s.active_session)
}

/// The card of the next game, with the stake written on it.
pub open spec fn spec_new_card(
    s: StateModel,
    bet_amount: u128,
    now_micros: u64,
    block_height: u64,
) -> BingoCard {
    let game_id = (s.game_counter + 1) as u64;
    BingoCard {
        bet_amount_atto: bet_amount,
        ..spec_generate_card(block_height, now_micros, game_id, game_id)
    }
}

/// The state after a game is started: the stake is charged and becomes the
/// prize pool, a fresh card replaces whatever card there was, and drawn
/// numbers, pending prize and history start over.
pub open spec fn spec_new_game(
    s: StateModel,
    bet_amount: u128,
    now_micros: u64,
    block_height: u64,
) -> StateModel {
    StateModel {
        active_session: spec_count_operation(s.active_session),
        current_card: Some(spec_new_card(s, bet_amount, now_micros, block_height)),
        game_counter: (s.game_counter + 1) as u64,
        drawn_numbers: Seq::empty(),
        has_unclaimed_prize: false,
        player_balance: s.player_balance.spec_charged(bet_amount),
        current_prize_pool: bet_amount,
        total_games: (s.total_games + 1) as u64,
        roll_history: Seq::empty(),
        ..s
    }
}

/// The response to a game started.
pub open spec fn spec_new_game_response(
    s: StateModel,
    bet_amount: u128,
    now_micros: u64,
    block_height: u64,
) -> ResponseModel {
    ResponseModel::GameStarted {
        game_id: (s.game_counter + 1) as u64,
        card: spec_new_card(s, bet_amount, now_micros, block_height),
        entry_fee_paid: spec_decimal(bet_amount as nat),
        prize_pool: spec_decimal(bet_amount as nat),
    }
}

/// The failure of a roll, if it fails. The checks come in this order: a card
/// must be in play, its prize must not be paid out, no bingo may await its
/// claim, and the roll fee must be available.
pub open spec fn spec_roll_error(s: StateModel) -> Option<EngineError> {
    match s.current_card {
        None => Some(EngineError::GameState(GameStateError::NoActiveGame)),
        Some(card) => if card.prize_claimed {
            Some(EngineError::GameState(GameStateError::GameAlreadyComplete))
        } else if s.has_unclaimed_prize {
            Some(EngineError::GameState(GameStateError::BingoPendingClaim))
        } else {
            match s.player_balance.spec_debit_error(ROLL_COST) {
                Some(e) => Some(EngineError::Fee(e)),
                None => None,
            }
        },
    }
}

/// The dice of the next roll on `card`. The roll index is the number of
/// rolls made on the card so far.
pub open spec fn spec_roll_dice(
    s: StateModel,
    card: BingoCard,
    now_micros: u64,
    block_height: u64,
) -> [u8; 4] {
    spec_dice(
        spec_dice_state(
            block_height,
            now_micros,
            card.rolls_count as u64,
            s.game_counter,
            s.total_games,
        ),
    )
}

/// The sum of the next roll on `card`.
pub open spec fn spec_roll_sum(
    s: StateModel,
    card: BingoCard,
    now_micros: u64,
    block_height: u64,
) -> u8 {
    spec_dice_sum(spec_roll_dice(s, card, now_micros, block_height)) as u8
}

/// The pattern that the next roll on `card` completes, if it completes one.
pub open spec fn spec_roll_bingo(
    s: StateModel,
    card: BingoCard,
    now_micros: u64,
    block_height: u64,
) -> Option<BingoType> {
    spec_check_bingo(
        spec_card_marked(card, spec_roll_sum(s, card, now_micros, block_height)).marked@,
    )
}

/// How many cells the next roll on `card` newly marks.
pub open spec fn spec_roll_hits(
    s: StateModel,
    card: BingoCard,
    now_micros: u64,
    block_height: u64,
) -> nat {
    spec_hit_count(
        card.numbers@,
        card.marked@,
        spec_roll_sum(s, card, now_micros, block_height),
        CARD_CELLS as nat,
    )
}

/// A roll on `card` is within the machine's limits: the counters that it
/// advances can take one more, and the fee total can take one more fee.
pub open spec fn roll_fits(
    s: StateModel,
    card: BingoCard,
    now_micros: u64,
    block_height: u64,
) -> bool {
    &&& card.rolls_count < u32::MAX
    &&& card.total_roll_fees_atto + ROLL_COST <= u128::MAX
    &&& spec_roll_bingo(s, card, now_micros, block_height) is Some ==> s.total_wins < u64::MAX
    &&& session_can_count(s.active_session)
}

/// The card after the next roll: marked, with one more roll and one more fee
/// counted.
pub open spec fn spec_rolled_card(
    s: StateModel,
    card: BingoCard,
    now_micros: u64,
    block_height: u64,
) -> BingoCard {
    BingoCard {
        rolls_count: (card.rolls_count + 1) as u32,
        total_roll_fees_atto: (card.total_roll_fees_atto + ROLL_COST) as u128,
        ..spec_card_marked(card, spec_roll_sum(s, card, now_micros, block_height))
    }
}

/// The record of the next roll on `card`.
pub open spec fn spec_roll_record(
    s: StateModel,
    card: BingoCard,
    now_micros: u64,
    block_height: u64,
) -> RollRecord {
    RollRecord {
        dice: spec_roll_dice(s, card, now_micros, block_height),
        sum: spec_roll_sum(s, card, now_micros, block_height),
        matched: spec_roll_hits(s, card, now_micros, block_height) > 0,
        timestamp_micros: now_micros,
        fee_paid_atto: ROLL_COST,
        is_lucky: spec_roll_hits(s, card, now_micros, block_height) > 1,
    }
}

/// The drawn numbers with `sum` added at the end, unless it is among them.
pub open spec fn spec_draw(drawn: Seq<u8>, sum: u8) -> Seq<u8> {
    if drawn.contains(sum) {
        drawn
    } else {
        drawn.push(sum)
    }
}

/// The state after a roll on `card`: the fee is charged, the sum is drawn and
/// marked, a completed pattern is counted as a win and awaits its claim, and
/// the roll is recorded.
pub open spec fn spec_roll(
    s: StateModel,
    card: BingoCard,
    now_micros: u64,
    block_height: u64,
) -> StateModel {
    let won = spec_roll_bingo(s, card, now_micros, block_height) is Some;
    StateModel {
        active_session: spec_count_operation(s.active_session),
        current_card: Some(spec_rolled_card(s, card, now_micros, block_height)),
        drawn_numbers: spec_draw(
            s.drawn_numbers,
            spec_roll_sum(s, card, now_micros, block_height),
        ),
        has_unclaimed_prize: s.has_unclaimed_prize || won,
        player_balance: s.player_balance.spec_charged(ROLL_COST),
        total_wins: if won {
            (s.total_wins + 1) as u64
        } else {
            s.total_wins
        },
        roll_history: spec_push_record(
            s.roll_history,
            spec_roll_record(s, card, now_micros, block_height),
        ),
        ..s
    }
}

/// The response to a roll on `card`.
pub open spec fn spec_roll_response(
    s: StateModel,
    card: BingoCard,
    now_micros: u64,
    block_height: u64,
) -> ResponseModel {
    let sum = spec_roll_sum(s, card, now_micros, block_height);
    let position = spec_match_position(card.numbers@, card.marked@, sum);
    let bingo = spec_roll_bingo(s, card, now_micros, block_height);
    ResponseModel::RollResult {
        dice: spec_roll_dice(s, card, now_micros, block_height),
        sum,
        matched: spec_roll_hits(s, card, now_micros, block_height) > 0,
        match_row: match position {
            Some(p) => Some(p.0),
            None => None,
        },
        match_col: match position {
            Some(p) => Some(p.1),
            None => None,
        },
        bingo_type: bingo,
        game_over: bingo is Some,
        rolls_count: (card.rolls_count + 1) as u32,
        roll_fee_paid: spec_decimal(ROLL_COST as nat),
        total_roll_fees: spec_decimal((card.total_roll_fees_atto + ROLL_COST) as nat),
        is_lucky: spec_roll_hits(s, card, now_micros, block_height) > 1,
    }
}

/// The failure of a claim, if it fails. The checks come in this order: a
/// bingo must await its claim, there must be a card, its prize must not be
/// paid out, and it must carry a stake.
pub open spec fn spec_claim_error(s: StateModel) -> Option<EngineError> {
    if !s.has_unclaimed_prize {
        Some(EngineError::Claim(ClaimError::NoUnclaimedPrize))
    } else {
        match s.current_card {
            None => Some(EngineError::GameState(GameStateError::NoActiveGame)),
            Some(card) => if card.prize_claimed {
                Some(EngineError::Claim(ClaimError::PrizeAlreadyClaimed))
            } else if card.bet_amount_atto == 0 {
                Some(EngineError::Claim(ClaimError::InvalidStoredBet))
            } else {
                None
            },
        }
    }
}

/// A claim is within the machine's limits: the session's operation counter
/// can take one more.
pub open spec fn claim_fits(s: StateModel) -> bool {
    session_can_count(s.active_session)
}

/// The state after the prize of `card` is claimed: the payout is credited,
/// the card is marked as paid, nothing awaits a claim, the prize pool is
/// empty, and the session has one more operation counted.
pub open spec fn spec_claim(s: StateModel, card: BingoCard) -> StateModel {
    StateModel {
        active_session: spec_count_operation(s.active_session),
        current_card: Some(BingoCard { prize_claimed: true, ..card }),
        has_unclaimed_prize: false,
        player_balance: s.player_balance.spec_credited(
            spec_payout(card.bet_amount_atto, card.rolls_count),
        ),
        current_prize_pool: 0,
        ..s
    }
}

/// The response to a claim on `card`.
pub open spec fn spec_claim_response(s: StateModel, card: BingoCard) -> ResponseModel {
    let payout = spec_payout(card.bet_amount_atto, card.rolls_count);
    ResponseModel::PrizeClaimed {
        bet_amount: spec_decimal(card.bet_amount_atto as nat),
        rolls_count: card.rolls_count,
        multiplier_display: spec_multiplier_label(card.rolls_count),
        payout_amount: spec_decimal(payout as nat),
        new_balance: spec_decimal(s.player_balance.spec_credited(payout).available_atto as nat),
    }
}


/// Whether the operation needs a valid session.
pub open spec fn needs_session(operation: Operation) -> bool {
    operation is NewGame || operation is RollAndMatch || operation is ClaimPrize
}

/// The failure of an operation, if it fails. An operation that needs a
/// session fails for want of a valid one first.
pub open spec fn spec_operation_error(
    s: StateModel,
    operation: Operation,
    now_micros: u64,
) -> Option<EngineError> {
    if needs_session(operation) && spec_validate(s.active_session, now_micros) is Err {
        Some(EngineError::Session(spec_validate(s.active_session, now_micros)->Err_0))
    } else {
        match operation {
            Operation::StartSession { .. } => None,
            Operation::EndSession => None,
            Operation::NewGame { bet_amount_atto } => spec_new_game_error(s, bet_amount_atto),
            Operation::RollAndMatch => spec_roll_error(s),
            Operation::ClaimPrize => spec_claim_error(s),
            Operation::Deposit { amount_atto } => spec_deposit_error(amount_atto),
            Operation::Withdraw { amount } => spec_withdraw_error(s, amount),
        }
    }
}

/// The operation is within the machine's limits on the state: where it goes
/// through, the counters and times that it computes fit their types.
pub open spec fn operation_fits(
    s: StateModel,
    operation: Operation,
    now_micros: u64,
    block_height: u64,
) -> bool {
    spec_operation_error(s, operation, now_micros) is None ==> match operation {
        Operation::StartSession { expires_in_secs } => start_session_fits(
            s,
            expires_in_secs,
            now_micros,
        ),
        Operation::NewGame { .. } => new_game_fits(s),
        Operation::RollAndMatch => roll_fits(s, s.current_card->0, now_micros, block_height),
        Operation::ClaimPrize => claim_fits(s),
        _ => true,
    }
}

/// The state after an operation. A failed operation leaves the state as it
/// was.
pub open spec fn spec_execute(
    s: StateModel,
    operation: Operation,
    now_micros: u64,
    block_height: u64,
) -> StateModel {
    if spec_operation_error(s, operation, now_micros) is Some {
        s
    } else {
        match operation {
            Operation::StartSession { expires_in_secs } => spec_start_session(
                s,
                expires_in_secs,
                now_micros,
            ),
            Operation::EndSession => spec_end_session(s),
            Operation::NewGame { bet_amount_atto } => spec_new_game(
                s,
                bet_amount_atto,
                now_micros,
                block_height,
            ),
            Operation::RollAndMatch => spec_roll(s, s.current_card->0, now_micros, block_height),
            Operation::ClaimPrize => spec_claim(s, s.current_card->0),
            Operation::Deposit { amount_atto } => spec_deposit(s, amount_atto),
            Operation::Withdraw { amount } => spec_withdraw(s, amount),
        }
    }
}

/// The response to an operation.
pub open spec fn spec_response(
    s: StateModel,
    operation: Operation,
    now_micros: u64,
    block_height: u64,
) -> ResponseModel {
    match spec_operation_error(s, operation, now_micros) {
        Some(error) => spec_error_response(error),
        None => match operation {
            Operation::StartSession { expires_in_secs } => spec_start_session_response(
                s,
                expires_in_secs,
                now_micros,
            ),
            Operation::EndSession => ResponseModel::SessionEnded,
            Operation::NewGame { bet_amount_atto } => spec_new_game_response(
                s,
                bet_amount_atto,
                now_micros,
                block_height,
            ),
            Operation::RollAndMatch => spec_roll_response(
                s,
                s.current_card->0,
                now_micros,
                block_height,
            ),
            Operation::ClaimPrize => spec_claim_response(s, s.current_card->0),
            Operation::Deposit { amount_atto } => spec_deposit_response(s, amount_atto),
            Operation::Withdraw { amount } => spec_withdraw_response(s, amount),
        },
    }
}

} // verus!
