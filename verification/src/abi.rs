//! The operations the engine accepts and the responses it gives.
//!
//! Amounts travel in responses as decimal text of atto-units.

use crate::card::{BingoCard, BingoType};
use vstd::prelude::*;

verus! {

/// Marker type that names the application's interface.
#[derive(Debug, Clone, Copy, PartialEq, Eq, Structural)]
pub struct FlashportAbi;

/// An operation on the engine.
#[derive(Debug, Clone, Copy, PartialEq, Eq, Structural)]
pub enum Operation {
    /// Open a session that lasts the given number of seconds.
    StartSession { expires_in_secs: u64 },
    /// Close the session and clear the game.
    EndSession,
    /// Stake a bet and deal a new card.
    NewGame { bet_amount_atto: u128 },
    /// Pay for a roll, roll four dice, mark their sum and look for a bingo.
    RollAndMatch,
    /// Collect the payout of a bingo.
    ClaimPrize,
    /// Add to the available balance.
    Deposit { amount_atto: u128 },
    /// Take from the available balance.
    Withdraw { amount: u128 },
}

/// What an operation answers.
#[derive(Debug, Clone, PartialEq, Eq)]
pub enum OperationResponse {
    /// A session was opened.
    SessionStarted { session_id: u64, expires_at_micros: u64 },
    /// The session was closed.
    SessionEnded,
    /// A game was started on a fresh card.
    GameStarted { game_id: u64, card: BingoCard, entry_fee_paid: String, prize_pool: String },
    /// A roll was made.
    RollResult {
        /// The four dice, each from 1 to 6.
        dice: [u8; 4],
        /// Their sum, from 4 to 24.
        sum: u8,
        /// Whether the sum marked a cell.
        matched: bool,
        /// Row of the last cell marked, if any was.
        match_row: Option<u8>,
        /// Column of the last cell marked, if any was.
        match_col: Option<u8>,
        /// The pattern completed, if one is.
        bingo_type: Option<BingoType>,
        /// Whether a pattern is complete.
        game_over: bool,
        /// Rolls made on the card, this one included.
        rolls_count: u32,
        /// The fee of this roll.
        roll_fee_paid: String,
        /// The roll fees paid on the card, this one included.
        total_roll_fees: String,
        /// Whether the sum marked more than one cell.
        is_lucky: bool,
    },
    /// A prize was paid out.
    PrizeClaimed {
        /// The stake.
        bet_amount: String,
        /// Rolls it took to win.
        rolls_count: u32,
        /// The multiplier as shown to the player.
        multiplier_display: String,
        /// What was paid out.
        payout_amount: String,
        /// The available balance after the payout.
        new_balance: String,
    },
    /// A deposit was taken.
    DepositReceived { amount: String, new_balance: String },
    /// A withdrawal was made.
    WithdrawalProcessed { amount: String, remaining_balance: String },
    /// The operation was refused and changed nothing.
    Error { message: String },
}

/// A response with its texts as sequences of characters.
#[verifier::ext_equal]
pub enum ResponseModel {
    SessionStarted { session_id: u64, expires_at_micros: u64 },
    SessionEnded,
    GameStarted { game_id: u64, card: BingoCard, entry_fee_paid: Seq<char>, prize_pool: Seq<char> },
    RollResult {
        dice: [u8; 4],
        sum: u8,
        matched: bool,
        match_row: Option<u8>,
        match_col: Option<u8>,
        bingo_type: Option<BingoType>,
        game_over: bool,
        rolls_count: u32,
        roll_fee_paid: Seq<char>,
        total_roll_fees: Seq<char>,
        is_lucky: bool,
    },
    PrizeClaimed {
        bet_amount: Seq<char>,
        rolls_count: u32,
        multiplier_display: Seq<char>,
        payout_amount: Seq<char>,
        new_balance: Seq<char>,
    },
    DepositReceived { amount: Seq<char>, new_balance: Seq<char> },
    WithdrawalProcessed { amount: Seq<char>, remaining_balance: Seq<char> },
    Error { message: Seq<char> },
}

impl View for OperationResponse {
    type V = ResponseModel;

    open spec fn view(&self) -> ResponseModel {
        match *self {
            OperationResponse::SessionStarted { session_id, expires_at_micros } => {
                ResponseModel::SessionStarted { session_id, expires_at_micros }
            },
            OperationResponse::SessionEnded => ResponseModel::SessionEnded,
            OperationResponse::GameStarted { game_id, card, entry_fee_paid, prize_pool } => {
                ResponseModel::GameStarted {
                    game_id,
                    card,
                    entry_fee_paid: entry_fee_paid@,
                    prize_pool: prize_pool@,
                }
            },
            OperationResponse::RollResult {
                dice,
                sum,
                matched,
                match_row,
                match_col,
                bingo_type,
                game_over,
                rolls_count,
                roll_fee_paid,
                total_roll_fees,
                is_lucky,
            } => ResponseModel::RollResult {
                dice,
                sum,
                matched,
                match_row,
                match_col,
                bingo_type,
                game_over,
                rolls_count,
                roll_fee_paid: roll_fee_paid@,
                total_roll_fees: total_roll_fees@,
                is_lucky,
            },
            OperationResponse::PrizeClaimed {
                bet_amount,
                rolls_count,
                multiplier_display,
                payout_amount,
                new_balance,
            } => ResponseModel::PrizeClaimed {
                bet_amount: bet_amount@,
                rolls_count,
                multiplier_display: multiplier_display@,
                payout_amount: payout_amount@,
                new_balance: new_balance@,
            },
            OperationResponse::DepositReceived { amount, new_balance } => {
                ResponseModel::DepositReceived { amount: amount@, new_balance: new_balance@ }
            },
            OperationResponse::WithdrawalProcessed { amount, remaining_balance } => {
                ResponseModel::WithdrawalProcessed {
                    amount: amount@,
                    remaining_balance: remaining_balance@,
                }
            },
            OperationResponse::Error { message } => ResponseModel::Error { message: message@ },
        }
    }
}

} // verus!
