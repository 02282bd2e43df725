//! The read side: projections of the state for display. None of them changes
//! the state.

use crate::abi::Operation;
use crate::card::BingoCard;
use crate::history::RollRecord;
use crate::ledger::PlayerBalance;
use crate::payout::{
    calculate_payout,
    get_multiplier,
    spec_multiplier_label,
    spec_payout,
    spec_tier_name,
    tier_name,
};
use crate::session::GameSession;
use crate::state::{FlashportState, StateModel};
use crate::{ENTRY_FEE, ROLL_COST};
use vstd::prelude::*;

verus! {

/// Most rolls that one request for automatic rolls may schedule.
pub const AUTO_ROLL_LIMIT: u32 = 100;

/// The read side of the engine over a loaded state.
#[derive(Debug, Clone, PartialEq, Eq)]
pub struct FlashportService {
    /// The state that the projections read.
    pub state: FlashportState,
}

/// The most recent roll, for display.
#[derive(Debug, Clone, Copy, PartialEq, Eq)]
pub struct LastRollResult {
    /// The four dice.
    pub dice: [u8; 4],
    /// Their sum.
    pub sum: u8,
    /// Whether the sum marked a cell.
    pub matched: bool,
    /// When the roll was made, in microseconds.
    pub timestamp_micros: u64,
    /// Whether a bingo awaits its claim.
    pub game_over: bool,
    /// Whether the sum marked more than one cell.
    pub is_lucky: bool,
}

/// The counters of play and the available balance.
#[derive(Debug, Clone, Copy, PartialEq, Eq, Structural)]
pub struct GameStats {
    /// Games played.
    pub total_games: u64,
    /// Games won.
    pub total_wins: u64,
    /// Rolls made on the current card, zero where there is none.
    pub current_game_rolls: u32,
    /// The available balance, in atto-units.
    pub balance_atto: u128,
}

/// What a claim would pay if the current card won now.
#[derive(Debug, Clone, PartialEq, Eq)]
pub struct PotentialPayout {
    /// The stake, in atto-units.
    pub bet_amount_atto: u128,
    /// Rolls made on the card.
    pub rolls_count: u32,
    /// The multiplier as shown to the player.
    pub multiplier: String,
    /// The payout, in atto-units.
    pub potential_payout_atto: u128,
    /// The name of the multiplier's tier.
    pub tier_name: String,
}

/// The most recent roll of a state, if its history holds one.
pub open spec fn spec_last_roll(s: StateModel) -> Option<LastRollResult> {
    if s.roll_history.len() == 0 {
        None
    } else {
        let record = s.roll_history.last();
        Some(
            LastRollResult {
                dice: record.dice,
                sum: record.sum,
                matched: record.matched,
                timestamp_micros: record.timestamp_micros,
                game_over: s.has_unclaimed_prize,
                is_lucky: record.is_lucky,
            },
        )
    }
}

/// The counters of a state.
pub open spec fn spec_stats(s: StateModel) -> GameStats {
    GameStats {
        total_games: s.total_games,
        total_wins: s.total_wins,
        current_game_rolls: match s.current_card {
            Some(card) => card.rolls_count,
            None => 0,
        },
        balance_atto: s.player_balance.available_atto,
    }
}

/// The card on which a payout can be reckoned: the current card, where it
/// carries a stake.
pub open spec fn spec_staked_card(s: StateModel) -> Option<BingoCard> {
    match s.current_card {
        Some(card) => if card.bet_amount_atto == 0 {
            None
        } else {
            Some(card)
        },
        None => None,
    }
}

/// How many rolls a request for `count` automatic rolls schedules.
pub open spec fn spec_auto_roll_count(count: u32) -> u32 {
    if count > AUTO_ROLL_LIMIT {
        AUTO_ROLL_LIMIT
    } else {
        count
    }
}

impl FlashportService {
    /// The read side over `state`.
    pub fn new(state: FlashportState) -> (service: FlashportService)
        ensures
            service.state == state,
    {
        FlashportService { state }
    }

    /// The most recent roll, if the history holds one. It is shown as the
    /// end of the game while a bingo awaits its claim.
    pub fn last_roll(&self) -> (last: Option<LastRollResult>)
        ensures
            last == spec_last_roll(self.state@),
    {
        let count = self.state.roll_history.len();
        if count == 0 {
            return None;
        }
        let record = self.state.roll_history[count - 1];
        Some(
            LastRollResult {
                dice: record.dice,
                sum: record.sum,
                matched: record.matched,
                timestamp_micros: record.timestamp_micros,
                game_over: self.state.has_unclaimed_prize,
                is_lucky: record.is_lucky,
            },
        )
    }

    /// The counters of play and the available balance.
    pub fn stats(&self) -> (stats: GameStats)
        ensures
            stats == spec_stats(self.state@),
    {
        let current_game_rolls = match self.state.current_card {
            Some(card) => card.rolls_count,
            None => 0,
        };
        GameStats {
            total_games: self.state.total_games,
            total_wins: self.state.total_wins,
            current_game_rolls,
            balance_atto: self.state.player_balance.available_atto,
        }
    }

    /// What a claim would pay if the current card won now. There is nothing
    /// to reckon where no card is in play or the card carries no stake.
    pub fn potential_payout(&self) -> (potential: Option<PotentialPayout>)
        ensures
            match spec_staked_card(self.state@) {
                None => potential is None,
                Some(card) => potential matches Some(p) && {
                    &&& p.bet_amount_atto == card.bet_amount_atto
                    &&& p.rolls_count == card.rolls_count
                    &&& p.multiplier@ == spec_multiplier_label(card.rolls_count)
                    &&& p.potential_payout_atto == spec_payout(
                        card.bet_amount_atto,
                        card.rolls_count,
                    )
                    &&& p.tier_name@ == spec_tier_name(card.rolls_count)
                },
            },
    {
        let card = match self.state.current_card {
            Some(card) => card,
            None => {
                return None;
            },
        };
        if card.bet_amount_atto == 0 {
            return None;
        }
        let (_, _, multiplier) = get_multiplier(card.rolls_count);
        Some(
            PotentialPayout {
                bet_amount_atto: card.bet_amount_atto,
                rolls_count: card.rolls_count,
                multiplier,
                potential_payout_atto: calculate_payout(card.bet_amount_atto, card.rolls_count),
                tier_name: tier_name(card.rolls_count),
            },
        )
    }

    /// The operations that a request for `count` automatic rolls schedules:
    /// that many rolls, and never more than a hundred.
    pub fn auto_roll(count: u32) -> (operations: Vec<Operation>)
        ensures
            operations@.len() == spec_auto_roll_count(count),
            forall|k: int| 0 <= k < operations@.len() ==> operations@[k] == Operation::RollAndMatch,
    {
        let capped = if count > AUTO_ROLL_LIMIT {
            AUTO_ROLL_LIMIT
        } else {
            count
        };
        let mut operations: Vec<Operation> = Vec::new();
        let mut k: u32 = 0;
        while k < capped
            invariant
                k <= capped,
                operations@.len() == k,
                forall|m: int|
                    0 <= m < operations@.len() ==> operations@[m] == Operation::RollAndMatch,
            decreases capped - k,
        {
            operations.push(Operation::RollAndMatch);
            k += 1;
        }
        operations
    }

    /// The open session, if there is one.
    pub fn session(&self) -> (session: Option<GameSession>)
        ensures
            session == self.state@.active_session,
    {
        self.state.active_session
    }

    /// Whether a session is open.
    pub fn has_session(&self) -> (open: bool)
        ensures
            open == self.state@.active_session is Some,
    {
        self.state.active_session.is_some()
    }

    /// The card in play, if there is one.
    pub fn current_card(&self) -> (card: Option<BingoCard>)
        ensures
            card == self.state@.current_card,
    {
        self.state.current_card
    }

    /// The dice sums seen in the current game.
    pub fn drawn_numbers(&self) -> (drawn: Vec<u8>)
        ensures
            drawn@ == self.state@.drawn_numbers,
    {
        self.state.drawn_numbers.clone()
    }

    /// Games played.
    pub fn total_games(&self) -> (games: u64)
        ensures
            games == self.state@.total_games,
    {
        self.state.total_games
    }

    /// Games won.
    pub fn total_wins(&self) -> (wins: u64)
        ensures
            wins == self.state@.total_wins,
    {
        self.state.total_wins
    }

    /// How many rolls the history holds.
    pub fn roll_history_count(&self) -> (count: usize)
        ensures
            count == self.state@.roll_history.len(),
    {
        self.state.roll_history.len()
    }

    /// The player's ledger.
    pub fn player_balance(&self) -> (ledger: PlayerBalance)
        ensures
            ledger == self.state@.player_balance,
    {
        self.state.player_balance
    }

    /// The stake of the current game, until it is claimed.
    pub fn current_prize_pool(&self) -> (pool: u128)
        ensures
            pool == self.state@.current_prize_pool,
    {
        self.state.current_prize_pool
    }

    /// Whether a bingo awaits its claim.
    pub fn has_unclaimed_prize(&self) -> (pending: bool)
        ensures
            pending == self.state@.has_unclaimed_prize,
    {
        self.state.has_unclaimed_prize
    }

    /// The flat entry fee for display, in atto-units.
    pub fn entry_fee(&self) -> (fee: u128)
        ensures
            fee == ENTRY_FEE,
    {
        ENTRY_FEE
    }

    /// The price of a roll, in atto-units.
    pub fn roll_cost(&self) -> (fee: u128)
        ensures
            fee == ROLL_COST,
    {
        ROLL_COST
    }
}

} // verus!
