//! The state of the engine: one aggregate, owned by whoever runs the
//! operations and handed to each of them in turn.

use crate::card::{spec_check_bingo, BingoCard, POOL_MAX, POOL_MIN};
use crate::history::{RollRecord, HISTORY_LIMIT};
use crate::ledger::PlayerBalance;
use crate::session::GameSession;
use vstd::prelude::*;

verus! {

/// Everything the engine remembers between operations.
#[derive(Debug, Clone, PartialEq, Eq)]
pub struct FlashportState {
    /// The open session, if there is one.
    pub active_session: Option<GameSession>,
    /// Sessions opened so far.
    pub session_counter: u64,
    /// The card in play, if there is one.
    pub current_card: Option<BingoCard>,
    /// Games started so far; the last game's identifier.
    pub game_counter: u64,
    /// The dice sums seen in the current game, each once, in the order in
    /// which they first came up.
    pub drawn_numbers: Vec<u8>,
    /// Whether a bingo awaits its claim.
    pub has_unclaimed_prize: bool,
    /// The player's ledger.
    pub player_balance: PlayerBalance,
    /// The stake of the current game, until it is claimed.
    pub current_prize_pool: u128,
    /// Games played.
    pub total_games: u64,
    /// Games won.
    pub total_wins: u64,
    /// The most recent rolls, oldest first.
    pub roll_history: Vec<RollRecord>,
}

/// The state with its lists as sequences.
#[verifier::ext_equal]
pub struct StateModel {
    pub active_session: Option<GameSession>,
    pub session_counter: u64,
    pub current_card: Option<BingoCard>,
    pub game_counter: u64,
    pub drawn_numbers: Seq<u8>,
    pub has_unclaimed_prize: bool,
    pub player_balance: PlayerBalance,
    pub current_prize_pool: u128,
    pub total_games: u64,
    pub total_wins: u64,
    pub roll_history: Seq<RollRecord>,
}

/// Where the current game stands.
#[derive(Debug, Clone, Copy, PartialEq, Eq, Structural)]
pub enum GamePhase {
    /// No card has been dealt.
    NoGame,
    /// A card is in play and no pattern is complete.
    InProgress,
    /// A pattern is complete and the prize is not yet claimed.
    Won,
    /// The prize has been paid out.
    Claimed,
}

impl View for FlashportState {
    type V = StateModel;

    open spec fn view(&self) -> StateModel {
        StateModel {
            active_session: self.active_session,
            session_counter: self.session_counter,
            current_card: self.current_card,
            game_counter: self.game_counter,
            drawn_numbers: self.drawn_numbers@,
            has_unclaimed_prize: self.has_unclaimed_prize,
            player_balance: self.player_balance,
            current_prize_pool: self.current_prize_pool,
            total_games: self.total_games,
            total_wins: self.total_wins,
            roll_history: self.roll_history@,
        }
    }
}

/// The drawn numbers are dice sums and none of them occurs twice.
pub open spec fn drawn_numbers_well_formed(drawn: Seq<u8>) -> bool {
    &&& forall|k: int| 0 <= k < drawn.len() ==> POOL_MIN <= #[trigger] drawn[k] <= POOL_MAX
    &&& drawn.no_duplicates()
}

impl StateModel {
    /// The state before anything has happened.
    pub open spec fn spec_initial() -> StateModel {
        StateModel {
            active_session: None,
            session_counter: 0,
            current_card: None,
            game_counter: 0,
            drawn_numbers: Seq::empty(),
            has_unclaimed_prize: false,
            player_balance: PlayerBalance {
                available_atto: 0,
                total_deposited_atto: 0,
                total_won_atto: 0,
                total_spent_atto: 0,
            },
            current_prize_pool: 0,
            total_games: 0,
            total_wins: 0,
            roll_history: Seq::empty(),
        }
    }

    /// Where the current game stands.
    pub open spec fn phase(self) -> GamePhase {
        match self.current_card {
            None => GamePhase::NoGame,
            Some(card) => if card.prize_claimed {
                GamePhase::Claimed
            } else if self.has_unclaimed_prize {
                GamePhase::Won
            } else {
                GamePhase::InProgress
            },
        }
    }

    /// What holds of every state that the operations reach from the initial
    /// one: the card is well formed; a prize awaits its claim exactly while a
    /// pattern is complete and unpaid; the drawn numbers are distinct dice
    /// sums; the history is within its limit.
    pub open spec fn wf(self) -> bool {
        &&& match self.current_card {
            None => !self.has_unclaimed_prize,
            Some(card) => {
                &&& card.wf()
                &&& card.prize_claimed ==> !self.has_unclaimed_prize
                &&& (self.phase() == GamePhase::InProgress) == (spec_check_bingo(card.marked@)
                    is None)
            },
        }
        &&& drawn_numbers_well_formed(self.drawn_numbers)
        &&& self.roll_history.len() <= HISTORY_LIMIT
    }
}

impl FlashportState {
    /// The state before anything has happened: no session, no card, an
    /// empty ledger.
    pub fn new() -> (state: FlashportState)
        ensures
            state@ == StateModel::spec_initial(),
            state@.wf(),
    {
        FlashportState {
            active_session: None,
            session_counter: 0,
            current_card: None,
            game_counter: 0,
            drawn_numbers: Vec::new(),
            has_unclaimed_prize: false,
            player_balance: PlayerBalance::new(),
            current_prize_pool: 0,
            total_games: 0,
            total_wins: 0,
            roll_history: Vec::new(),
        }
    }
}

} // verus!
