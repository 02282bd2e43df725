//! The orchestrator: it owns the state and carries out the operations, each
//! one to completion, each one either in full or not at all.
//!
//! The host supplies the timestamp and the block height with every call.
//! Nothing else enters a transition.

use crate::abi::{Operation, OperationResponse, ResponseModel};
use crate::card::{
    check_bingo_on_card,
    generate_card,
    lemma_fresh_card_has_no_bingo,
    mark_number_on_card,
    BingoCard,
};
use crate::decimal::format_amount;
use crate::errors::{
    BalanceError,
    BetError,
    ClaimError,
    EngineError,
    GameStateError,
    SessionError,
};
use crate::history::{push_record, RollRecord};
use crate::laws::lemma_draw_keeps_well_formed;
use crate::model::{
    claim_fits,
    new_game_fits,
    operation_fits,
    roll_fits,
    session_can_count,
    spec_claim,
    spec_claim_error,
    spec_claim_response,
    spec_count_operation,
    spec_deposit,
    spec_deposit_error,
    spec_deposit_response,
    spec_end_session,
    spec_error_response,
    spec_execute,
    spec_new_game,
    spec_new_game_error,
    spec_new_game_response,
    spec_response,
    spec_roll,
    spec_roll_bingo,
    spec_roll_error,
    spec_roll_record,
    spec_roll_response,
    spec_rolled_card,
    spec_start_session,
    spec_start_session_response,
    spec_withdraw,
    spec_withdraw_error,
    spec_withdraw_response,
    start_session_fits,
};
use crate::payout::{apply_multiplier, get_multiplier};
use crate::rng::{dice_sum, generate_dice_roll};
use crate::session::{spec_validate, validate_session, GameSession, MICROS_PER_SECOND};
use crate::state::{FlashportState, StateModel};
use crate::{MAX_BET, MIN_BET, ROLL_COST};
use vstd::prelude::*;

verus! {

/// The engine: the state and the operations on it.
#[derive(Debug, Clone, PartialEq, Eq)]
pub struct FlashportContract {
    /// The state, as loaded before an operation and saved after it.
    pub state: FlashportState,
}

/// The response that reports a failure.
pub fn error_response(error: EngineError) -> (response: OperationResponse)
    ensures
        response@ == spec_error_response(error),
{
    OperationResponse::Error { message: error.message() }
}

/// Whether `number` is among the drawn numbers.
pub fn is_drawn(drawn: &Vec<u8>, number: u8) -> (found: bool)
    ensures
        found == drawn@.contains(number),
{
    let mut k: usize = 0;
    while k < drawn.len()
        invariant
            k <= drawn.len(),
            forall|m: int| 0 <= m < k ==> drawn[m] != number,
        decreases drawn.len() - k,
    {
        if drawn[k] == number {
            return true;
        }
        k += 1;
    }
    false
}

impl FlashportContract {
    /// An engine in its initial state.
    pub fn new() -> (contract: FlashportContract)
        ensures
            contract.state@ == StateModel::spec_initial(),
            contract.state@.wf(),
    {
        FlashportContract { state: FlashportState::new() }
    }

    /// Counts one more operation on the session, if there is a session.
    fn count_operation(&mut self)
        requires
            session_can_count(old(self).state@.active_session),
        ensures
            final(self).state@ == (StateModel {
                active_session: spec_count_operation(old(self).state@.active_session),
                ..old(self).state@
            }),
    {
        match self.state.active_session {
            Some(session) => {
                self.state.active_session = Some(
                    GameSession {
                        session_id: session.session_id,
                        created_at_micros: session.created_at_micros,
                        expires_at_micros: session.expires_at_micros,
                        operations_count: session.operations_count + 1,
                    },
                );
            },
            None => {},
        }
    }

    /// Opens a session for `expires_in_secs` seconds from `now_micros`. It
    /// replaces the session there was and leaves the game as it is.
    pub fn start_session(&mut self, expires_in_secs: u64, now_micros: u64) -> (response:
        OperationResponse)
        requires
            start_session_fits(old(self).state@, expires_in_secs, now_micros),
        ensures
            final(self).state@ == spec_start_session(
                old(self).state@,
                expires_in_secs,
                now_micros,
            ),
            response@ == spec_start_session_response(old(self).state@, expires_in_secs, now_micros),
            old(self).state@.wf() ==> final(self).state@.wf(),
    {
        let session = GameSession::start(self.state.session_counter, now_micros, expires_in_secs);
        self.state.active_session = Some(session);
        self.state.session_counter = session.session_id;
        OperationResponse::SessionStarted {
            session_id: session.session_id,
            expires_at_micros: session.expires_at_micros,
        }
    }

    /// Closes the session and clears the game: card, drawn numbers, pending
    /// prize and history. The ledger and the counters stay.
    pub fn end_session(&mut self) -> (response: OperationResponse)
        ensures
            final(self).state@ == spec_end_session(old(self).state@),
            response@ == ResponseModel::SessionEnded,
            final(self).state@.wf(),
    {
        self.state.active_session = None;
        self.state.current_card = None;
        self.state.drawn_numbers = Vec::new();
        self.state.has_unclaimed_prize = false;
        self.state.roll_history = Vec::new();
        OperationResponse::SessionEnded
    }

    /// Whether the session lets an operation through at
    /// `now_micros`.
    pub fn validate_session(&self, now_micros: u64) -> (verdict: Result<(), SessionError>)
        ensures
            verdict == spec_validate(self.state@.active_session, now_micros),
    {
        validate_session(&self.state.active_session, now_micros)
    }

    /// Takes a deposit. A deposit of nothing is refused and changes nothing.
    pub fn handle_deposit(&mut self, amount_atto: u128) -> (response: OperationResponse)
        ensures
            match spec_deposit_error(amount_atto) {
                Some(error) => final(self).state@ == old(self).state@ && response@
                    == spec_error_response(error),
                None => final(self).state@ == spec_deposit(old(self).state@, amount_atto)
                    && response@ == spec_deposit_response(old(self).state@, amount_atto),
            },
            old(self).state@.wf() ==> final(self).state@.wf(),
    {
        match self.state.player_balance.deposit(amount_atto) {
            Ok(new_balance) => OperationResponse::DepositReceived {
                amount: format_amount(amount_atto),
                new_balance: format_amount(new_balance),
            },
            Err(error) => error_response(EngineError::Balance(error)),
        }
    }

    /// Makes a withdrawal. An amount that is not available is refused and
    /// changes nothing.
    pub fn handle_withdraw(&mut self, amount: u128) -> (response: OperationResponse)
        ensures
            match spec_withdraw_error(old(self).state@, amount) {
                Some(error) => final(self).state@ == old(self).state@ && response@
                    == spec_error_response(error),
                None => final(self).state@ == spec_withdraw(old(self).state@, amount) && response@
                    == spec_withdraw_response(old(self).state@, amount),
            },
            old(self).state@.wf() ==> final(self).state@.wf(),
    {
        match self.state.player_balance.withdraw(amount) {
            Ok(remaining) => OperationResponse::WithdrawalProcessed {
                amount: format_amount(amount),
                remaining_balance: format_amount(remaining),
            },
            Err(error) => error_response(EngineError::Balance(error)),
        }
    }

    /// Charges a fee against the ledger. This is the one debit that play
    /// makes, for the stake and for each roll. A fee that is not available
    /// is refused and changes nothing.
    pub fn charge_fee(&mut self, fee: u128) -> (result: Result<(), BalanceError>)
        ensures
            match old(self).state@.player_balance.spec_debit_error(fee) {
                Some(error) => result == Err::<(), BalanceError>(error) && final(self).state@
                    == old(self).state@,
                None => result == Ok::<(), BalanceError>(()) && final(self).state@ == (StateModel {
                    player_balance: old(self).state@.player_balance.spec_charged(fee),
                    ..old(self).state@
                }),
            },
    {
        self.state.player_balance.charge_fee(fee)
    }

    /// Starts a game: checks the stake, charges it, deals a card for the next
    /// game id and starts drawn numbers, pending prize and history over. A
    /// refused game changes nothing.
    pub fn new_game(
        &mut self,
        bet_amount_atto: u128,
        now_micros: u64,
        block_height: u64,
    ) -> (response: OperationResponse)
        requires
            spec_new_game_error(old(self).state@, bet_amount_atto) is None ==> new_game_fits(
                old(self).state@,
            ),
        ensures
            match spec_new_game_error(old(self).state@, bet_amount_atto) {
                Some(error) => final(self).state@ == old(self).state@ && response@
                    == spec_error_response(error),
                None => final(self).state@ == spec_new_game(
                    old(self).state@,
                    bet_amount_atto,
                    now_micros,
                    block_height,
                ) && response@ == spec_new_game_response(
                    old(self).state@,
                    bet_amount_atto,
                    now_micros,
                    block_height,
                ),
            },
            old(self).state@.wf() ==> final(self).state@.wf(),
    {
        if bet_amount_atto < MIN_BET {
            return error_response(EngineError::Bet(BetError::TooLow));
        }
        if bet_amount_atto > MAX_BET {
            return error_response(EngineError::Bet(BetError::TooHigh));
        }
        match self.charge_fee(bet_amount_atto) {
            Err(error) => {
                return error_response(EngineError::Fee(error));
            },
            Ok(()) => {},
        }
        let game_id = self.state.game_counter + 1;
        self.state.game_counter = game_id;

        let mut card = generate_card(block_height, now_micros, game_id, game_id);
        card.bet_amount_atto = bet_amount_atto;

        self.state.current_card = Some(card);
        self.state.drawn_numbers = Vec::new();
        self.state.has_unclaimed_prize = false;
        self.state.roll_history = Vec::new();
        self.state.current_prize_pool = bet_amount_atto;
        self.state.total_games = self.state.total_games + 1;
        self.count_operation();
        proof {
            lemma_fresh_card_has_no_bingo(card);
        }
        OperationResponse::GameStarted {
            game_id,
            card,
            entry_fee_paid: format_amount(bet_amount_atto),
            prize_pool: format_amount(bet_amount_atto),
        }
    }

    /// The roll: charges the fee, rolls four dice, draws and marks their
    /// sum, looks for a completed pattern and records the roll. All checks
    /// come before the fee is charged; once it is charged nothing can fail.
    /// A refused roll changes nothing.
    pub fn roll_and_match(&mut self, now_micros: u64, block_height: u64) -> (response:
        OperationResponse)
        requires
            spec_roll_error(old(self).state@) is None ==> roll_fits(
                old(self).state@,
                old(self).state@.current_card->0,
                now_micros,
                block_height,
            ),
        ensures
            match spec_roll_error(old(self).state@) {
                Some(error) => final(self).state@ == old(self).state@ && response@
                    == spec_error_response(error),
                None => final(self).state@ == spec_roll(
                    old(self).state@,
                    old(self).state@.current_card->0,
                    now_micros,
                    block_height,
                ) && response@ == spec_roll_response(
                    old(self).state@,
                    old(self).state@.current_card->0,
                    now_micros,
                    block_height,
                ),
            },
            old(self).state@.wf() ==> final(self).state@.wf(),
    {
        let card = match self.state.current_card {
            Some(card) => card,
            None => {
                return error_response(EngineError::GameState(GameStateError::NoActiveGame));
            },
        };
        if card.prize_claimed {
            return error_response(EngineError::GameState(GameStateError::GameAlreadyComplete));
        }
        if self.state.has_unclaimed_prize {
            return error_response(EngineError::GameState(GameStateError::BingoPendingClaim));
        }
        match self.charge_fee(ROLL_COST) {
            Err(error) => {
                return error_response(EngineError::Fee(error));
            },
            Ok(()) => {},
        }
        let ghost before = old(self).state@;

        let dice = generate_dice_roll(
            block_height,
            now_micros,
            card.rolls_count as u64,
            self.state.game_counter,
            self.state.total_games,
        );
        let sum = dice_sum(&dice);

        if !is_drawn(&self.state.drawn_numbers, sum) {
            self.state.drawn_numbers.push(sum);
        }
        let mut updated_card = card;
        let (matched, match_pos, match_count) = mark_number_on_card(&mut updated_card, sum);
        let is_lucky = match_count > 1;

        let bingo_type = check_bingo_on_card(&updated_card);
        let game_over = bingo_type.is_some();
        if game_over {
            self.state.total_wins = self.state.total_wins + 1;
            self.state.has_unclaimed_prize = true;
        }
        updated_card.rolls_count = updated_card.rolls_count + 1;
        let rolls_count = updated_card.rolls_count;
        let new_total_fees = updated_card.total_roll_fees_atto + ROLL_COST;
        updated_card.total_roll_fees_atto = new_total_fees;
        self.state.current_card = Some(updated_card);

        self.count_operation();

        let record = RollRecord {
            dice,
            sum,
            matched,
            timestamp_micros: now_micros,
            fee_paid_atto: ROLL_COST,
            is_lucky,
        };
        push_record(&mut self.state.roll_history, record);

        proof {
            assert(updated_card == spec_rolled_card(before, card, now_micros, block_height));
            assert(record == spec_roll_record(before, card, now_micros, block_height));
            assert(self.state@ =~= spec_roll(before, card, now_micros, block_height));
            if before.wf() {
                lemma_draw_keeps_well_formed(before.drawn_numbers, sum);
            }
        }
        OperationResponse::RollResult {
            dice,
            sum,
            matched,
            match_row: match match_pos {
                Some(p) => Some(p.0),
                None => None,
            },
            match_col: match match_pos {
                Some(p) => Some(p.1),
                None => None,
            },
            bingo_type,
            game_over,
            rolls_count,
            roll_fee_paid: format_amount(ROLL_COST),
            total_roll_fees: format_amount(new_total_fees),
            is_lucky,
        }
    }

    /// The claim: pays out the stake times the multiplier of the card's roll
    /// count, marks the card as paid, empties the prize pool and counts the
    /// operation on the session. A refused claim changes nothing.
    pub fn claim_prize(&mut self) -> (response: OperationResponse)
        requires
            spec_claim_error(old(self).state@) is None ==> claim_fits(old(self).state@),
        ensures
            match spec_claim_error(old(self).state@) {
                Some(error) => final(self).state@ == old(self).state@ && response@
                    == spec_error_response(error),
                None => final(self).state@ == spec_claim(
                    old(self).state@,
                    old(self).state@.current_card->0,
                ) && response@ == spec_claim_response(
                    old(self).state@,
                    old(self).state@.current_card->0,
                ),
            },
            old(self).state@.wf() ==> final(self).state@.wf(),
    {
        if !self.state.has_unclaimed_prize {
            return error_response(EngineError::Claim(ClaimError::NoUnclaimedPrize));
        }
        let card = match self.state.current_card {
            Some(card) => card,
            None => {
                return error_response(EngineError::GameState(GameStateError::NoActiveGame));
            },
        };
        if card.prize_claimed {
            return error_response(EngineError::Claim(ClaimError::PrizeAlreadyClaimed));
        }
        let bet_amount_atto = card.bet_amount_atto;
        if bet_amount_atto == 0 {
            return error_response(EngineError::Claim(ClaimError::InvalidStoredBet));
        }
        let (numerator, denominator, multiplier_display) = get_multiplier(card.rolls_count);
        let payout_atto = apply_multiplier(bet_amount_atto, numerator, denominator);
        let new_balance = self.state.player_balance.credit_payout(payout_atto);

        let mut updated_card = card;
        updated_card.prize_claimed = true;
        self.state.current_card = Some(updated_card);
        self.state.has_unclaimed_prize = false;
        self.state.current_prize_pool = 0;
        self.count_operation();

        OperationResponse::PrizeClaimed {
            bet_amount: format_amount(bet_amount_atto),
            rolls_count: card.rolls_count,
            multiplier_display,
            payout_amount: format_amount(payout_atto),
            new_balance: format_amount(new_balance),
        }
    }

    /// Carries out one operation at the given time and block height. The
    /// operations of play (new game, roll, claim) need a valid session.
    /// An operation that fails, for want of a session or later, answers with the
    /// failure's text and leaves the state as it was.
    pub fn execute_operation(
        &mut self,
        operation: Operation,
        now_micros: u64,
        block_height: u64,
    ) -> (response: OperationResponse)
        requires
            operation_fits(old(self).state@, operation, now_micros, block_height),
        ensures
            final(self).state@ == spec_execute(
                old(self).state@,
                operation,
                now_micros,
                block_height,
            ),
            response@ == spec_response(old(self).state@, operation, now_micros, block_height),
            old(self).state@.wf() ==> final(self).state@.wf(),
    {
        match operation {
            Operation::StartSession { expires_in_secs } => self.start_session(
                expires_in_secs,
                now_micros,
            ),
            Operation::EndSession => self.end_session(),
            Operation::NewGame { bet_amount_atto } => {
                match self.validate_session(now_micros) {
                    Err(error) => error_response(EngineError::Session(error)),
                    Ok(()) => self.new_game(bet_amount_atto, now_micros, block_height),
                }
            },
            Operation::RollAndMatch => {
                match self.validate_session(now_micros) {
                    Err(error) => error_response(EngineError::Session(error)),
                    Ok(()) => self.roll_and_match(now_micros, block_height),
                }
            },
            Operation::ClaimPrize => {
                match self.validate_session(now_micros) {
                    Err(error) => error_response(EngineError::Session(error)),
                    Ok(()) => self.claim_prize(),
                }
            },
            Operation::Deposit { amount_atto } => self.handle_deposit(amount_atto),
            Operation::Withdraw { amount } => self.handle_withdraw(amount),
        }
    }

    /// Whether the session's operation counter, if there is a session, can
    /// take one more.
    fn session_has_room(&self) -> (room: bool)
        ensures
            room == session_can_count(self.state@.active_session),
    {
        match self.state.active_session {
            Some(session) => session.operations_count < u64::MAX,
            None => true,
        }
    }

    /// Whether a roll at the given time and height would complete a pattern
    /// on `card`.
    fn roll_would_win(&self, card: &BingoCard, now_micros: u64, block_height: u64) -> (wins: bool)
        ensures
            wins == spec_roll_bingo(self.state@, *card, now_micros, block_height) is Some,
    {
        let dice = generate_dice_roll(
            block_height,
            now_micros,
            card.rolls_count as u64,
            self.state.game_counter,
            self.state.total_games,
        );
        let sum = dice_sum(&dice);
        let mut marked_card = *card;
        mark_number_on_card(&mut marked_card, sum);
        check_bingo_on_card(&marked_card).is_some()
    }

    /// Whether the operation is within the machine's limits on this state,
    /// that is, whether `execute_operation` may be called with it: whether
    /// the counters and times that it would compute fit their types. It
    /// changes nothing. An operation that would be refused is always within
    /// limits.
    pub fn can_execute(&self, operation: Operation, now_micros: u64, block_height: u64) -> (fits:
        bool)
        ensures
            fits == operation_fits(self.state@, operation, now_micros, block_height),
    {
        match operation {
            Operation::StartSession { expires_in_secs } => {
                self.state.session_counter < u64::MAX && expires_in_secs <= (u64::MAX - now_micros)
                    / MICROS_PER_SECOND
            },
            Operation::NewGame { bet_amount_atto } => {
                if self.validate_session(now_micros).is_err() {
                    return true;
                }
                if bet_amount_atto < MIN_BET || bet_amount_atto > MAX_BET || bet_amount_atto
                    > self.state.player_balance.available_atto {
                    return true;
                }
                self.state.game_counter < u64::MAX && self.state.total_games < u64::MAX
                    && self.session_has_room()
            },
            Operation::RollAndMatch => {
                if self.validate_session(now_micros).is_err() {
                    return true;
                }
                let card = match self.state.current_card {
                    Some(card) => card,
                    None => {
                        return true;
                    },
                };
                if card.prize_claimed || self.state.has_unclaimed_prize || ROLL_COST
                    > self.state.player_balance.available_atto {
                    return true;
                }
                if card.rolls_count == u32::MAX || card.total_roll_fees_atto > u128::MAX
                    - ROLL_COST || !self.session_has_room() {
                    return false;
                }
                self.state.total_wins < u64::MAX || !self.roll_would_win(
                    &card,
                    now_micros,
                    block_height,
                )
            },
            Operation::ClaimPrize => {
                if self.validate_session(now_micros).is_err() {
                    return true;
                }
                if !self.state.has_unclaimed_prize {
                    return true;
                }
                let card = match self.state.current_card {
                    Some(card) => card,
                    None => {
                        return true;
                    },
                };
                if card.prize_claimed || card.bet_amount_atto == 0 {
                    return true;
                }
                self.session_has_room()
            },
            _ => true,
        }
    }
}

} // verus!
