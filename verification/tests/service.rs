use flashport::service::{GameStats, LastRollResult};
use flashport::{FlashportContract, FlashportService, FlashportState, Operation};

const NOW: u64 = 1_000_000_000;
const HEIGHT: u64 = 100;
const TOKEN: u128 = 1_000_000_000_000_000_000;

fn played(rolls: u32) -> FlashportContract {
    let mut app = FlashportContract::new();
    app.execute_operation(Operation::Deposit { amount_atto: 10 * TOKEN }, NOW, HEIGHT);
    app.execute_operation(Operation::StartSession { expires_in_secs: 3600 }, NOW, HEIGHT);
    app.execute_operation(Operation::NewGame { bet_amount_atto: 5 * TOKEN }, NOW, HEIGHT);
    for _ in 0..rolls {
        app.execute_operation(Operation::RollAndMatch, NOW, HEIGHT);
    }
    app
}

#[test]
fn test_query_stats() {
    let service = FlashportService::new(FlashportState::new());
    assert_eq!(service.total_games(), 0);
    assert_eq!(service.total_wins(), 0);
}

#[test]
fn single_chain_game_flow() {
    let mut app = FlashportContract::new();
    app.execute_operation(Operation::Deposit { amount_atto: 10 * TOKEN }, NOW, HEIGHT);
    app.execute_operation(Operation::StartSession { expires_in_secs: 3600 }, NOW, HEIGHT);
    assert!(FlashportService::new(app.state.clone()).has_session());

    app.execute_operation(Operation::NewGame { bet_amount_atto: 5 * TOKEN }, NOW, HEIGHT);
    assert_eq!(FlashportService::new(app.state.clone()).total_games(), 1);

    app.execute_operation(Operation::RollAndMatch, NOW, HEIGHT);
    assert_eq!(FlashportService::new(app.state.clone()).roll_history_count(), 1);
}

#[test]
fn operations_require_balance() {
    let service = FlashportService::new(FlashportContract::new().state);
    assert!(!service.has_session());
    assert_eq!(service.total_games(), 0);
}

#[test]
fn multiple_rolls() {
    let app = played(5);
    assert_eq!(FlashportService::new(app.state).roll_history_count(), 5);
}

#[test]
fn fees_are_reported_in_atto() {
    let service = FlashportService::new(FlashportState::new());
    assert_eq!(service.entry_fee(), 5_000_000_000_000_000_000);
    assert_eq!(service.roll_cost(), 50_000_000_000_000_000);
    assert_eq!(service.roll_cost(), flashport::ROLL_COST);
    assert_eq!(service.entry_fee(), flashport::ENTRY_FEE);
    assert_eq!(flashport::MIN_BET, 1_000_000_000_000_000_000);
    assert_eq!(flashport::MAX_BET, 100_000_000_000_000_000_000);
    assert_eq!(flashport::PRIZE_MULTIPLIER, 2);
}

#[test]
fn last_roll_is_the_newest_record() {
    assert_eq!(FlashportService::new(played(0).state).last_roll(), None);
    let service = FlashportService::new(played(2).state);
    assert_eq!(
        service.last_roll(),
        Some(LastRollResult {
            dice: [6, 5, 2, 6],
            sum: 19,
            matched: true,
            timestamp_micros: NOW,
            game_over: false,
            is_lucky: true,
        })
    );
    let won = FlashportService::new(played(18).state);
    let last = won.last_roll().unwrap();
    assert_eq!(last.sum, 10);
    assert!(last.game_over);
    assert!(won.has_unclaimed_prize());
}

#[test]
fn stats_read_the_counters() {
    assert_eq!(
        FlashportService::new(FlashportState::new()).stats(),
        GameStats { total_games: 0, total_wins: 0, current_game_rolls: 0, balance_atto: 0 }
    );
    let service = FlashportService::new(played(18).state);
    assert_eq!(
        service.stats(),
        GameStats {
            total_games: 1,
            total_wins: 1,
            current_game_rolls: 18,
            balance_atto: 5 * TOKEN - 18 * 50_000_000_000_000_000,
        }
    );
}

#[test]
fn potential_payout_follows_the_roll_count() {
    assert_eq!(FlashportService::new(FlashportState::new()).potential_payout(), None);
    let fresh = FlashportService::new(played(0).state).potential_payout().unwrap();
    assert_eq!(fresh.bet_amount_atto, 5 * TOKEN);
    assert_eq!(fresh.rolls_count, 0);
    assert_eq!(fresh.multiplier, "10x");
    assert_eq!(fresh.potential_payout_atto, 50 * TOKEN);
    assert_eq!(fresh.tier_name, "LEGENDARY");
    let later = FlashportService::new(played(12).state).potential_payout().unwrap();
    assert_eq!(later.rolls_count, 12);
    assert_eq!(later.multiplier, "5x");
    assert_eq!(later.potential_payout_atto, 25 * TOKEN);
    assert_eq!(later.tier_name, "EPIC");
}

#[test]
fn potential_payout_needs_a_stake() {
    let mut app = played(1);
    let mut card = app.state.current_card.unwrap();
    card.bet_amount_atto = 0;
    app.state.current_card = Some(card);
    assert_eq!(FlashportService::new(app.state).potential_payout(), None);
}

#[test]
fn projections_read_the_state() {
    let app = played(3);
    let service = FlashportService::new(app.state.clone());
    assert_eq!(service.session(), app.state.active_session);
    assert_eq!(service.current_card(), app.state.current_card);
    assert_eq!(service.drawn_numbers(), vec![15, 19, 11]);
    assert_eq!(service.player_balance(), app.state.player_balance);
    assert_eq!(service.current_prize_pool(), 5 * TOKEN);
    assert!(!service.has_unclaimed_prize());
    assert_eq!(service.total_wins(), 0);
}

#[test]
fn auto_roll_is_capped_at_a_hundred() {
    assert_eq!(FlashportService::auto_roll(0).len(), 0);
    assert_eq!(FlashportService::auto_roll(7), vec![Operation::RollAndMatch; 7]);
    assert_eq!(FlashportService::auto_roll(100).len(), 100);
    assert_eq!(FlashportService::auto_roll(101).len(), 100);
    assert_eq!(FlashportService::auto_roll(u32::MAX), vec![Operation::RollAndMatch; 100]);
}
