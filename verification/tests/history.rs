use flashport::history::push_record;
use flashport::RollRecord;

fn record(n: u64) -> RollRecord {
    RollRecord {
        dice: [1, 2, 3, 4],
        sum: 10,
        matched: n % 2 == 0,
        timestamp_micros: n,
        fee_paid_atto: 50_000_000_000_000_000,
        is_lucky: false,
    }
}

#[test]
fn history_keeps_everything_up_to_the_limit() {
    let mut history: Vec<RollRecord> = Vec::new();
    for n in 1..=50 {
        push_record(&mut history, record(n));
        assert_eq!(history.len(), n as usize);
    }
    for n in 1..=50u64 {
        assert_eq!(history[(n - 1) as usize], record(n));
    }
}

#[test]
fn history_bound_after_sixty_rolls() {
    let mut history: Vec<RollRecord> = Vec::new();
    for n in 1..=60 {
        push_record(&mut history, record(n));
        assert!(history.len() <= 50);
    }
    assert_eq!(history.len(), 50);
    for k in 0..50u64 {
        assert_eq!(history[k as usize], record(11 + k));
    }
}

#[test]
fn history_drops_the_oldest_first() {
    let mut history: Vec<RollRecord> = Vec::new();
    for n in 1..=51 {
        push_record(&mut history, record(n));
    }
    assert_eq!(history.len(), 50);
    assert_eq!(history[0], record(2));
    assert_eq!(history[49], record(51));
}

#[test]
fn an_overlong_history_is_cut_to_the_limit() {
    let mut history: Vec<RollRecord> = (1..=70).map(record).collect();
    push_record(&mut history, record(71));
    assert_eq!(history.len(), 50);
    assert_eq!(history[0], record(22));
    assert_eq!(history[49], record(71));
}

#[test]
fn default_record_is_zero() {
    let blank = RollRecord::default();
    assert_eq!(blank.dice, [0, 0, 0, 0]);
    assert_eq!(blank.sum, 0);
    assert!(!blank.matched);
    assert_eq!(blank.timestamp_micros, 0);
    assert_eq!(blank.fee_paid_atto, 0);
    assert!(!blank.is_lucky);
}
