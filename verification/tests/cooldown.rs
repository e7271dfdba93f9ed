use rooney::db::DB;
use rooney::replies::remark::{Error, Remark, COOLDOWN_MS};

fn remarks_db() -> DB {
    DB {
        all_coins: vec![],
        nicks_coins: vec![],
        prices: vec![],
        all_time: vec![],
        bulls: vec![],
        bears: vec![],
        advice: String::new(),
        remarks: vec![("!ping".to_string(), "pong".to_string())],
    }
}

#[test]
fn first_attempt_is_allowed() {
    let mut gate = Remark::new();
    assert_eq!(gate.get_last_call(), None);
    assert!(!gate.on_cooldown_at(1_000));
    assert_eq!(gate.get_last_call(), Some(1_000));
}

#[test]
fn immediate_retry_is_rejected() {
    let mut gate = Remark::new();
    assert!(!gate.on_cooldown_at(1_000));
    assert!(gate.on_cooldown_at(1_000));
    assert!(gate.on_cooldown_at(1_001));
    // the stored timestamp is untouched by rejected attempts
    assert_eq!(gate.get_last_call(), Some(1_000));
}

#[test]
fn retry_at_exactly_the_cooldown_is_still_rejected() {
    let mut gate = Remark::new();
    assert!(!gate.on_cooldown_at(1_000));
    assert!(gate.on_cooldown_at(1_000 + COOLDOWN_MS));
}

#[test]
fn retry_after_the_cooldown_is_allowed() {
    let mut gate = Remark::new();
    assert!(!gate.on_cooldown_at(1_000));
    assert!(!gate.on_cooldown_at(1_001 + COOLDOWN_MS));
    assert_eq!(gate.get_last_call(), Some(1_001 + COOLDOWN_MS));
}

#[test]
fn backwards_clock_counts_as_nothing_elapsed() {
    let mut gate = Remark::new();
    assert!(!gate.on_cooldown_at(5_000));
    assert!(gate.on_cooldown_at(4_000));
}

#[test]
fn run_replies_then_cools_down() {
    let db = remarks_db();
    let mut gate = Remark::new();
    assert_eq!(gate.run_at(&db, Some("!ping"), 1_000), Ok("pong".to_string()));
    assert_eq!(gate.run_at(&db, Some("!ping"), 1_001), Err(Error::Contact));
    assert_eq!(
        gate.run_at(&db, Some("!ping"), 1_001 + COOLDOWN_MS + 1_000),
        Ok("pong".to_string())
    );
}

#[test]
fn run_with_real_clock_allows_first_and_rejects_second() {
    let db = remarks_db();
    let mut gate = Remark::new();
    assert_eq!(gate.run(&db, Some("!ping")), Ok("pong".to_string()));
    assert_eq!(gate.run(&db, Some("!ping")), Err(Error::Contact));
}

#[test]
fn run_without_data_signals_no_data_distinctly() {
    let db = remarks_db();
    let mut gate = Remark::new();
    assert_eq!(gate.run_at(&db, Some("!pong"), 1_000), Err(Error::NoData));
    let mut fresh = Remark::new();
    assert_eq!(fresh.run_at(&db, None, 1_000), Err(Error::NoData));
}

#[test]
fn command_metadata() {
    let gate = Remark::new();
    assert_eq!(gate.name(), "remark");
    assert_eq!(gate.help(), "");
}
