use flashport::decimal::format_amount;
use flashport::errors::{
    BalanceError, BetError, ClaimError, EngineError, GameStateError, SessionError,
};

#[test]
fn format_amount_writes_decimal_text() {
    assert_eq!(format_amount(0), "0");
    assert_eq!(format_amount(7), "7");
    assert_eq!(format_amount(9), "9");
    assert_eq!(format_amount(10), "10");
    assert_eq!(format_amount(101), "101");
    assert_eq!(format_amount(1234567890), "1234567890");
    assert_eq!(format_amount(1_000_000_000_000_000_000), "1000000000000000000");
    assert_eq!(format_amount(u128::MAX), "340282366920938463463374607431768211455");
}

#[test]
fn format_amount_agrees_with_the_standard_formatter() {
    let mut n: u128 = 1;
    for _ in 0..120 {
        assert_eq!(format_amount(n), n.to_string());
        assert_eq!(format_amount(n - 1), (n - 1).to_string());
        n = n.wrapping_mul(3).wrapping_add(7);
    }
}

#[test]
fn session_error_messages() {
    assert_eq!(
        SessionError::NoActiveSession.message(),
        "No active session - call StartSession first"
    );
    assert_eq!(SessionError::SessionExpired.message(), "Session expired - start a new session");
}

#[test]
fn balance_error_messages() {
    assert_eq!(BalanceError::ZeroAmount.message(), "Deposit amount must be greater than 0");
    assert_eq!(
        BalanceError::InsufficientBalance { available: 60, requested: 2_000_000_000_000_000_000 }
            .message(),
        "Insufficient balance. Available: 60 atto, Requested: 2000000000000000000 atto"
    );
}

#[test]
fn fee_shortfall_message() {
    let shortfall = BalanceError::InsufficientBalance { available: 60, requested: 100 };
    assert_eq!(
        shortfall.fee_message(),
        "Insufficient balance. Need 100 atto, have 60 atto. Deposit more LINERA."
    );
    assert_eq!(EngineError::Fee(shortfall).message(), shortfall.fee_message());
    assert_eq!(EngineError::Balance(shortfall).message(), shortfall.message());
    assert_eq!(BalanceError::ZeroAmount.fee_message(), BalanceError::ZeroAmount.message());
}

#[test]
fn bet_error_messages() {
    assert_eq!(
        BetError::TooLow.message(),
        "Bet too low. Minimum is 1 LINERA (1000000000000000000 atto)"
    );
    assert_eq!(
        BetError::TooHigh.message(),
        "Bet too high. Maximum is 100 LINERA (100000000000000000000 atto)"
    );
}

#[test]
fn game_state_error_messages() {
    assert_eq!(GameStateError::NoActiveGame.message(), "No active game - call NewGame first");
    assert_eq!(
        GameStateError::GameAlreadyComplete.message(),
        "Game already completed. Start a new game."
    );
    assert_eq!(
        GameStateError::BingoPendingClaim.message(),
        "BINGO! Claim your prize or start a new game."
    );
}

#[test]
fn claim_error_messages() {
    assert_eq!(ClaimError::NoUnclaimedPrize.message(), "No unclaimed prize. Win a bingo first!");
    assert_eq!(ClaimError::PrizeAlreadyClaimed.message(), "Prize already claimed.");
    assert_eq!(ClaimError::InvalidStoredBet.message(), "Invalid bet amount stored in game.");
}

#[test]
fn engine_error_takes_the_message_of_what_it_wraps() {
    assert_eq!(
        EngineError::Session(SessionError::SessionExpired).message(),
        SessionError::SessionExpired.message()
    );
    assert_eq!(
        EngineError::Balance(BalanceError::ZeroAmount).message(),
        BalanceError::ZeroAmount.message()
    );
    assert_eq!(EngineError::Bet(BetError::TooLow).message(), BetError::TooLow.message());
    assert_eq!(
        EngineError::GameState(GameStateError::NoActiveGame).message(),
        GameStateError::NoActiveGame.message()
    );
    assert_eq!(
        EngineError::Claim(ClaimError::InvalidStoredBet).message(),
        ClaimError::InvalidStoredBet.message()
    );
}
