//! The failures an operation can report. None of them is fatal: a failed
//! operation leaves the state as it found it and says why.

use crate::decimal::{format_amount, spec_decimal};
use crate::{MAX_BET, MIN_BET};
use vstd::prelude::*;
use vstd::string::*;

verus! {

/// Why an operation was turned away for want of a valid session.
#[derive(Debug, Clone, Copy, PartialEq, Eq, Structural)]
pub enum SessionError {
    /// No session has been started, or it was ended.
    NoActiveSession,
    /// The session's expiry time has been reached.
    SessionExpired,
}

/// Why the ledger refused a movement.
#[derive(Debug, Clone, Copy, PartialEq, Eq, Structural)]
pub enum BalanceError {
    /// A deposit of nothing.
    ZeroAmount,
    /// A debit larger than the available balance.
    InsufficientBalance { available: u128, requested: u128 },
}

/// Why a stake was refused.
#[derive(Debug, Clone, Copy, PartialEq, Eq, Structural)]
pub enum BetError {
    /// The stake is below the minimum.
    TooLow,
    /// The stake is above the maximum.
    TooHigh,
}

/// Why the game is in no state to take the operation.
#[derive(Debug, Clone, Copy, PartialEq, Eq, Structural)]
pub enum GameStateError {
    /// No card has been dealt.
    NoActiveGame,
    /// The card's prize has been paid out.
    GameAlreadyComplete,
    /// A bingo awaits its claim.
    BingoPendingClaim,
}

/// Why a claim was refused.
#[derive(Debug, Clone, Copy, PartialEq, Eq, Structural)]
pub enum ClaimError {
    /// No bingo awaits a claim.
    NoUnclaimedPrize,
    /// The card's prize has been paid out.
    PrizeAlreadyClaimed,
    /// The card carries no stake.
    InvalidStoredBet,
}

/// Any failure of an operation.
#[derive(Debug, Clone, Copy, PartialEq, Eq, Structural)]
pub enum EngineError {
    /// The operation needs a valid session and there is none.
    Session(SessionError),
    /// A deposit or a withdrawal was refused.
    Balance(BalanceError),
    /// A stake or a roll fee could not be charged.
    Fee(BalanceError),
    /// The stake is out of bounds.
    Bet(BetError),
    /// The game is in no state to take the operation.
    GameState(GameStateError),
    /// The claim was refused.
    Claim(ClaimError),
}

impl SessionError {
    /// The text of the failure.
    pub open spec fn spec_message(self) -> Seq<char> {
        match self {
            SessionError::NoActiveSession => "No active session - call StartSession first"@,
            SessionError::SessionExpired => "Session expired - start a new session"@,
        }
    }

    /// The text of the failure.
    pub fn message(&self) -> (text: String)
        ensures
            text@ == self.spec_message(),
    {
        match self {
            SessionError::NoActiveSession => String::from_str(
                "No active session - call StartSession first",
            ),
            SessionError::SessionExpired => String::from_str(
                "Session expired - start a new session",
            ),
        }
    }
}

impl BalanceError {
    /// The text of the failure. A shortfall names both amounts.
    pub open spec fn spec_message(self) -> Seq<char> {
        match self {
            BalanceError::ZeroAmount => "Deposit amount must be greater than 0"@,
            BalanceError::InsufficientBalance { available, requested } => {
                "Insufficient balance. Available: "@ + spec_decimal(available as nat)
                    + " atto, Requested: "@ + spec_decimal(requested as nat) + " atto"@
            },
        }
    }

    /// The text of the failure where it stopped a stake or a roll fee. A
    /// shortfall names what is needed and what there is.
    pub open spec fn spec_fee_message(self) -> Seq<char> {
        match self {
            BalanceError::ZeroAmount => "Deposit amount must be greater than 0"@,
            BalanceError::InsufficientBalance { available, requested } => {
                "Insufficient balance. Need "@ + spec_decimal(requested as nat) + " atto, have "@
                    + spec_decimal(available as nat) + " atto. Deposit more LINERA."@
            },
        }
    }

    /// The text of the failure.
    pub fn message(&self) -> (text: String)
        ensures
            text@ == self.spec_message(),
    {
        match self {
            BalanceError::ZeroAmount => String::from_str("Deposit amount must be greater than 0"),
            BalanceError::InsufficientBalance { available, requested } => {
                let mut text = String::from_str("Insufficient balance. Available: ");
                let available_text = format_amount(*available);
                text.append(available_text.as_str());
                text.append(" atto, Requested: ");
                let requested_text = format_amount(*requested);
                text.append(requested_text.as_str());
                text.append(" atto");
                text
            },
        }
    }

    /// The text of the failure where it stopped a stake or a roll fee.
    pub fn fee_message(&self) -> (text: String)
        ensures
            text@ == self.spec_fee_message(),
    {
        match self {
            BalanceError::ZeroAmount => String::from_str("Deposit amount must be greater than 0"),
            BalanceError::InsufficientBalance { available, requested } => {
                let mut text = String::from_str("Insufficient balance. Need ");
                let requested_text = format_amount(*requested);
                text.append(requested_text.as_str());
                text.append(" atto, have ");
                let available_text = format_amount(*available);
                text.append(available_text.as_str());
                text.append(" atto. Deposit more LINERA.");
                text
            },
        }
    }
}

impl BetError {
    /// The text of the failure. It names the limit that was crossed.
    pub open spec fn spec_message(self) -> Seq<char> {
        match self {
            BetError::TooLow => "Bet too low. Minimum is 1 LINERA ("@ + spec_decimal(
                MIN_BET as nat,
            ) + " atto)"@,
            BetError::TooHigh => "Bet too high. Maximum is 100 LINERA ("@ + spec_decimal(
                MAX_BET as nat,
            ) + " atto)"@,
        }
    }

    /// The text of the failure.
    pub fn message(&self) -> (text: String)
        ensures
            text@ == self.spec_message(),
    {
        match self {
            BetError::TooLow => {
                let mut text = String::from_str("Bet too low. Minimum is 1 LINERA (");
                let limit = format_amount(MIN_BET);
                text.append(limit.as_str());
                text.append(" atto)");
                text
            },
            BetError::TooHigh => {
                let mut text = String::from_str("Bet too high. Maximum is 100 LINERA (");
                let limit = format_amount(MAX_BET);
                text.append(limit.as_str());
                text.append(" atto)");
                text
            },
        }
    }
}

impl GameStateError {
    /// The text of the failure.
    pub open spec fn spec_message(self) -> Seq<char> {
        match self {
            GameStateError::NoActiveGame => "No active game - call NewGame first"@,
            GameStateError::GameAlreadyComplete => "Game already completed. Start a new game."@,
            GameStateError::BingoPendingClaim => "BINGO! Claim your prize or start a new game."@,
        }
    }

    /// The text of the failure.
    pub fn message(&self) -> (text: String)
        ensures
            text@ == self.spec_message(),
    {
        match self {
            GameStateError::NoActiveGame => String::from_str("No active game - call NewGame first"),
            GameStateError::GameAlreadyComplete => String::from_str(
                "Game already completed. Start a new game.",
            ),
            GameStateError::BingoPendingClaim => String::from_str(
                "BINGO! Claim your prize or start a new game.",
            ),
        }
    }
}

impl ClaimError {
    /// The text of the failure.
    pub open spec fn spec_message(self) -> Seq<char> {
        match self {
            ClaimError::NoUnclaimedPrize => "No unclaimed prize. Win a bingo first!"@,
            ClaimError::PrizeAlreadyClaimed => "Prize already claimed."@,
            ClaimError::InvalidStoredBet => "Invalid bet amount stored in game."@,
        }
    }

    /// The text of the failure.
    pub fn message(&self) -> (text: String)
        ensures
            text@ == self.spec_message(),
    {
        match self {
            ClaimError::NoUnclaimedPrize => String::from_str(
                "No unclaimed prize. Win a bingo first!",
            ),
            ClaimError::PrizeAlreadyClaimed => String::from_str("Prize already claimed."),
            ClaimError::InvalidStoredBet => String::from_str("Invalid bet amount stored in game."),
        }
    }
}

impl EngineError {
    /// The text of the failure.
    pub open spec fn spec_message(self) -> Seq<char> {
        match self {
            EngineError::Session(e) => e.spec_message(),
            EngineError::Balance(e) => e.spec_message(),
            EngineError::Fee(e) => e.spec_fee_message(),
            EngineError::Bet(e) => e.spec_message(),
            EngineError::GameState(e) => e.spec_message(),
            EngineError::Claim(e) => e.spec_message(),
        }
    }

    /// The text of the failure.
    pub fn message(&self) -> (text: String)
        ensures
            text@ == self.spec_message(),
    {
        match self {
            EngineError::Session(e) => e.message(),
            EngineError::Balance(e) => e.message(),
            EngineError::Fee(e) => e.fee_message(),
            EngineError::Bet(e) => e.message(),
            EngineError::GameState(e) => e.message(),
            EngineError::Claim(e) => e.message(),
        }
    }
}

} // verus!
