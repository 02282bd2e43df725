//! A deterministic, replayable dice-bingo wagering engine.
//!
//! A player deposits value, opens a time-boxed session, stakes a bet on a
//! freshly dealt 5x5 card, pays for dice rolls that mark the card, and claims
//! a payout whose multiplier falls as the roll count grows. Every transition is
//! a function of the recorded inputs (block height, timestamp, counters), so
//! replaying the same operations reproduces the same states.

use vstd::prelude::*;

pub mod abi;
pub mod amount;
pub mod card;
pub mod contract;
pub mod decimal;
pub mod errors;
pub mod history;
pub mod laws;
pub mod ledger;
pub mod model;
pub mod payout;
pub mod rng;
pub mod service;
pub mod session;
pub mod state;

pub use abi::{FlashportAbi, Operation, OperationResponse};
pub use card::{BingoCard, BingoType};
pub use contract::FlashportContract;
pub use history::RollRecord;
pub use ledger::PlayerBalance;
pub use service::FlashportService;
pub use session::GameSession;
pub use state::FlashportState;

verus! {

/// Smallest stake a game accepts: one token, in atto-units.
pub const MIN_BET: u128 = 1_000_000_000_000_000_000;

/// Largest stake a game accepts: a hundred tokens, in atto-units.
pub const MAX_BET: u128 = 100_000_000_000_000_000_000;

/// Price of one roll: a twentieth of a token, in atto-units.
pub const ROLL_COST: u128 = 50_000_000_000_000_000;

/// Flat entry fee shown by the fee queries: five tokens. Play charges the
/// stake instead.
pub const ENTRY_FEE: u128 = 5_000_000_000_000_000_000;

/// Flat prize multiplier, for display. Payouts follow the tiered table.
pub const PRIZE_MULTIPLIER: u128 = 2;

} // verus!
