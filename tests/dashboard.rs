use battery::State;
use power_seek::dashboard::{App, Key, KeyEffect};
use power_seek::telemetry::{ChargeState, HardwareQueryError, Reading};

fn one_battery() -> Result<Vec<Option<Reading>>, HardwareQueryError> {
    Ok(vec![Some(Reading {
        voltage_mv: 12000,
        energy_rate_mw: 24000,
        state: State::Discharging,
        percentage_milli: 55000,
    })])
}

#[test]
fn new_app_makes_the_first_refresh() {
    let app = App::new(one_battery(), 0);
    assert!(!app.should_exit);
    assert_eq!(app.refresh_interval_secs(), 2);
    assert_eq!(app.batteries.len(), 1);
    assert_eq!(app.batteries[0].voltage_mv, 12000);
    assert_eq!(app.batteries[0].current_ma, 2000);
    assert_eq!(app.batteries[0].power_mw, 24000);
    assert_eq!(app.batteries[0].state, ChargeState::Discharging);
    assert_eq!(app.batteries[0].percentage_milli, 55000);
}

#[test]
fn new_app_with_failed_listing_starts_empty() {
    let app = App::new(Err(HardwareQueryError::ManagerUnavailable), 0);
    assert!(app.batteries.is_empty());
    assert_eq!(app.refresh_interval_secs(), 2);
}

#[test]
fn decrease_five_times_from_two_stops_at_one() {
    let mut app = App::new(Ok(vec![]), 0);
    for _ in 0..5 {
        assert_eq!(app.handle_key_event(Key::Char('-')), KeyEffect::Nothing);
    }
    assert_eq!(app.refresh_interval_secs(), 1);
}

#[test]
fn increase_stops_at_ten() {
    let mut app = App::new(Ok(vec![]), 0);
    app.handle_key_event(Key::Char('+'));
    assert_eq!(app.refresh_interval_secs(), 3);
    for _ in 0..20 {
        app.handle_key_event(Key::Char('+'));
    }
    assert_eq!(app.refresh_interval_secs(), 10);
    app.handle_key_event(Key::Char('-'));
    assert_eq!(app.refresh_interval_secs(), 9);
}

#[test]
fn quit_keys_set_the_exit_flag() {
    let mut app = App::new(Ok(vec![]), 0);
    assert_eq!(app.handle_key_event(Key::Char('q')), KeyEffect::Nothing);
    assert!(app.should_exit);
    app.handle_key_event(Key::Char('x'));
    assert!(app.should_exit);

    let mut other = App::new(Ok(vec![]), 0);
    other.handle_key_event(Key::Esc);
    assert!(other.should_exit);
}

#[test]
fn refresh_keys_ask_for_a_refresh() {
    let mut app = App::new(Ok(vec![]), 0);
    assert_eq!(app.handle_key_event(Key::Char('r')), KeyEffect::Refresh);
    assert_eq!(app.handle_key_event(Key::Enter), KeyEffect::Refresh);
    assert!(!app.should_exit);
    assert_eq!(app.refresh_interval_secs(), 2);
}

#[test]
fn other_keys_change_nothing() {
    let mut app = App::new(one_battery(), 0);
    assert_eq!(app.handle_key_event(Key::Char('x')), KeyEffect::Nothing);
    assert_eq!(app.handle_key_event(Key::Other), KeyEffect::Nothing);
    assert!(!app.should_exit);
    assert_eq!(app.refresh_interval_secs(), 2);
    assert_eq!(app.batteries.len(), 1);
}

#[test]
fn failed_refresh_keeps_the_snapshot() {
    let mut app = App::new(one_battery(), 0);
    app.refresh_data(Err(HardwareQueryError::EnumerationFailed), 5000);
    assert_eq!(app.batteries.len(), 1);
    assert_eq!(app.batteries[0].current_ma, 2000);
    assert!(app.should_refresh(5000));
}

#[test]
fn refresh_with_same_telemetry_gives_same_records() {
    let mut app = App::new(one_battery(), 0);
    app.refresh_data(one_battery(), 1000);
    let first: Vec<_> = app
        .batteries
        .iter()
        .map(|b| (b.name.clone(), b.voltage_mv, b.current_ma, b.power_mw, b.state, b.percentage_milli))
        .collect();
    app.refresh_data(one_battery(), 2000);
    let second: Vec<_> = app
        .batteries
        .iter()
        .map(|b| (b.name.clone(), b.voltage_mv, b.current_ma, b.power_mw, b.state, b.percentage_milli))
        .collect();
    assert_eq!(first, second);
}

#[test]
fn refresh_replaces_the_snapshot_wholesale() {
    let mut app = App::new(one_battery(), 0);
    app.refresh_data(Ok(vec![None]), 1000);
    assert!(app.batteries.is_empty());
}

#[test]
fn refresh_is_due_after_the_interval() {
    let mut app = App::new(Ok(vec![]), 1000);
    assert!(!app.should_refresh(1000));
    assert!(!app.should_refresh(2999));
    assert!(app.should_refresh(3000));
    assert!(!app.should_refresh(500));
    app.refresh_data(Ok(vec![]), 3000);
    assert!(!app.should_refresh(3000));
    assert!(app.should_refresh(5000));
}
