use flashport::errors::BalanceError;
use flashport::PlayerBalance;

const TOKEN: u128 = 1_000_000_000_000_000_000;

#[test]
fn new_ledger_is_empty() {
    let ledger = PlayerBalance::new();
    assert_eq!(ledger.available_atto, 0);
    assert_eq!(ledger.total_deposited_atto, 0);
    assert_eq!(ledger.total_won_atto, 0);
    assert_eq!(ledger.total_spent_atto, 0);
    assert_eq!(ledger, PlayerBalance::default());
}

#[test]
fn deposit_adds_to_available_and_deposited() {
    let mut ledger = PlayerBalance::new();
    assert_eq!(ledger.deposit(10 * TOKEN), Ok(10 * TOKEN));
    assert_eq!(ledger.deposit(5), Ok(10 * TOKEN + 5));
    assert_eq!(ledger.available_atto, 10 * TOKEN + 5);
    assert_eq!(ledger.total_deposited_atto, 10 * TOKEN + 5);
    assert_eq!(ledger.total_won_atto, 0);
    assert_eq!(ledger.total_spent_atto, 0);
}

#[test]
fn deposit_of_nothing_is_refused() {
    let mut ledger = PlayerBalance::new();
    ledger.deposit(3).unwrap();
    let before = ledger;
    assert_eq!(ledger.deposit(0), Err(BalanceError::ZeroAmount));
    assert_eq!(ledger, before);
}

#[test]
fn deposit_saturates() {
    let mut ledger = PlayerBalance::new();
    ledger.deposit(u128::MAX - 1).unwrap();
    assert_eq!(ledger.deposit(5), Ok(u128::MAX));
    assert_eq!(ledger.available_atto, u128::MAX);
    assert_eq!(ledger.total_deposited_atto, u128::MAX);
}

#[test]
fn withdraw_takes_from_available_only() {
    let mut ledger = PlayerBalance::new();
    ledger.deposit(10 * TOKEN).unwrap();
    assert_eq!(ledger.withdraw(4 * TOKEN), Ok(6 * TOKEN));
    assert_eq!(ledger.available_atto, 6 * TOKEN);
    assert_eq!(ledger.total_deposited_atto, 10 * TOKEN);
    assert_eq!(ledger.total_spent_atto, 0);
    assert_eq!(ledger.withdraw(6 * TOKEN), Ok(0));
    assert_eq!(ledger.withdraw(0), Ok(0));
}

#[test]
fn withdraw_more_than_available_is_refused() {
    let mut ledger = PlayerBalance::new();
    ledger.deposit(10).unwrap();
    let before = ledger;
    assert_eq!(
        ledger.withdraw(11),
        Err(BalanceError::InsufficientBalance { available: 10, requested: 11 })
    );
    assert_eq!(ledger, before);
}

#[test]
fn charge_fee_moves_available_to_spent() {
    let mut ledger = PlayerBalance::new();
    ledger.deposit(10 * TOKEN).unwrap();
    assert_eq!(ledger.charge_fee(2 * TOKEN), Ok(()));
    assert_eq!(ledger.available_atto, 8 * TOKEN);
    assert_eq!(ledger.total_spent_atto, 2 * TOKEN);
    assert_eq!(ledger.charge_fee(8 * TOKEN), Ok(()));
    assert_eq!(ledger.available_atto, 0);
    assert_eq!(ledger.total_spent_atto, 10 * TOKEN);
}

#[test]
fn failed_charge_changes_nothing() {
    let mut ledger = PlayerBalance::new();
    ledger.deposit(100).unwrap();
    ledger.charge_fee(40).unwrap();
    let before = ledger;
    assert_eq!(
        ledger.charge_fee(61),
        Err(BalanceError::InsufficientBalance { available: 60, requested: 61 })
    );
    assert_eq!(ledger.available_atto, 60);
    assert_eq!(ledger.total_spent_atto, 40);
    assert_eq!(ledger, before);
}

#[test]
fn charge_on_an_empty_ledger_is_refused() {
    let mut ledger = PlayerBalance::new();
    assert_eq!(
        ledger.charge_fee(1),
        Err(BalanceError::InsufficientBalance { available: 0, requested: 1 })
    );
    assert_eq!(ledger.charge_fee(0), Ok(()));
    assert_eq!(ledger, PlayerBalance::new());
}

#[test]
fn total_spent_saturates() {
    let mut ledger = PlayerBalance {
        available_atto: 10,
        total_deposited_atto: 10,
        total_won_atto: 0,
        total_spent_atto: u128::MAX - 3,
    };
    assert_eq!(ledger.charge_fee(7), Ok(()));
    assert_eq!(ledger.available_atto, 3);
    assert_eq!(ledger.total_spent_atto, u128::MAX);
}

#[test]
fn credit_payout_adds_to_available_and_won() {
    let mut ledger = PlayerBalance::new();
    ledger.deposit(5).unwrap();
    assert_eq!(ledger.credit_payout(20), 25);
    assert_eq!(ledger.available_atto, 25);
    assert_eq!(ledger.total_won_atto, 20);
    assert_eq!(ledger.total_deposited_atto, 5);
    assert_eq!(ledger.credit_payout(u128::MAX), u128::MAX);
    assert_eq!(ledger.total_won_atto, u128::MAX);
}
