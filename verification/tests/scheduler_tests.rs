use chrono::{Datelike, Local, TimeZone, Timelike};
use kid_internet_lock::clock::Moment;
use kid_internet_lock::config::AppConfig;
use kid_internet_lock::scheduler::AppState;

fn at(y: i32, mo: u32, d: u32, h: u32, mi: u32, s: u32) -> Moment {
    let dt = Local.with_ymd_and_hms(y, mo, d, h, mi, s).unwrap();
    Moment {
        secs: dt.timestamp(),
        nanos: dt.timestamp_subsec_nanos(),
        month: dt.month(),
        day: dt.day(),
        weekday: dt.weekday().num_days_from_monday(),
        hour: dt.hour(),
        minute: dt.minute(),
    }
}

fn cfg_with_same_window(sh: u32, sm: u32, eh: u32, em: u32) -> AppConfig {
    let mut cfg = AppConfig::default();
    for day in cfg.weekly_schedule.iter_mut() {
        day.enabled = true;
        day.start_hour = sh;
        day.start_minute = sm;
        day.end_hour = eh;
        day.end_minute = em;
        day.start2_hour = 0;
        day.start2_minute = 0;
        day.end2_hour = 0;
        day.end2_minute = 0;
    }
    cfg
}

#[test]
fn test_standard_schedule() {
    let state = AppState::new(cfg_with_same_window(0, 0, 7, 0));

    let dt_block1 = at(2026, 9, 16, 0, 0, 0);
    let dt_block2 = at(2026, 9, 16, 3, 30, 0);
    let dt_block3 = at(2026, 9, 16, 6, 59, 0);
    let dt_allow1 = at(2026, 9, 16, 7, 0, 0);
    let dt_allow2 = at(2026, 9, 16, 15, 0, 0);
    let dt_allow3 = at(2026, 9, 16, 23, 59, 0);

    assert!(state.is_time_in_schedule(dt_block1));
    assert!(state.is_time_in_schedule(dt_block2));
    assert!(state.is_time_in_schedule(dt_block3));
    assert!(!state.is_time_in_schedule(dt_allow1));
    assert!(!state.is_time_in_schedule(dt_allow2));
    assert!(!state.is_time_in_schedule(dt_allow3));
}

#[test]
fn test_midnight_crossing_schedule() {
    let state = AppState::new(cfg_with_same_window(23, 30, 6, 30));

    let dt_allow1 = at(2026, 9, 16, 23, 29, 0);
    let dt_block1 = at(2026, 9, 16, 23, 30, 0);
    // Early morning is covered by the previous day's crossing window.
    let dt_block2 = at(2026, 9, 16, 0, 0, 0);
    let dt_block3 = at(2026, 9, 16, 6, 29, 0);
    let dt_allow2 = at(2026, 9, 16, 6, 30, 0);
    let dt_allow3 = at(2026, 9, 16, 12, 0, 0);

    assert!(!state.is_time_in_schedule(dt_allow1));
    assert!(state.is_time_in_schedule(dt_block1));
    assert!(state.is_time_in_schedule(dt_block2));
    assert!(state.is_time_in_schedule(dt_block3));
    assert!(!state.is_time_in_schedule(dt_allow2));
    assert!(!state.is_time_in_schedule(dt_allow3));
}

#[test]
fn test_weekday_specific_block() {
    // 2026-09-14 = Monday, 2026-09-15 = Tuesday.
    let mut cfg = AppConfig::default();
    for day in cfg.weekly_schedule.iter_mut() {
        day.enabled = false;
    }
    // Monday only: 00:00-07:00.
    cfg.weekly_schedule[0].enabled = true;
    cfg.weekly_schedule[0].start_hour = 0;
    cfg.weekly_schedule[0].start_minute = 0;
    cfg.weekly_schedule[0].end_hour = 7;
    cfg.weekly_schedule[0].end_minute = 0;

    let state = AppState::new(cfg);
    let mon_block = at(2026, 9, 14, 3, 0, 0);
    let tue_allow = at(2026, 9, 15, 3, 0, 0);
    assert!(state.is_time_in_schedule(mon_block));
    assert!(!state.is_time_in_schedule(tue_allow));
}

#[test]
fn test_crossing_spillover_into_unchecked_day() {
    // Monday night 23:00-07:00 spills into Tuesday morning even if Tuesday is off.
    let mut cfg = AppConfig::default();
    for day in cfg.weekly_schedule.iter_mut() {
        day.enabled = false;
    }
    cfg.weekly_schedule[0].enabled = true;
    cfg.weekly_schedule[0].start_hour = 23;
    cfg.weekly_schedule[0].start_minute = 0;
    cfg.weekly_schedule[0].end_hour = 7;
    cfg.weekly_schedule[0].end_minute = 0;

    let state = AppState::new(cfg);
    let mon_late = at(2026, 9, 14, 23, 30, 0);
    let tue_early = at(2026, 9, 15, 3, 0, 0);
    let tue_late = at(2026, 9, 15, 8, 0, 0);
    // Monday morning is not covered by Monday's own night window.
    let mon_early = at(2026, 9, 14, 3, 0, 0);
    assert!(state.is_time_in_schedule(mon_late));
    assert!(state.is_time_in_schedule(tue_early));
    assert!(!state.is_time_in_schedule(tue_late));
    assert!(!state.is_time_in_schedule(mon_early));
}

#[test]
fn test_all_days_disabled_allows_always() {
    let mut cfg = AppConfig::default();
    for day in cfg.weekly_schedule.iter_mut() {
        day.enabled = false;
    }
    let state = AppState::new(cfg);
    let dt = at(2026, 9, 16, 3, 0, 0);
    assert!(!state.is_time_in_schedule(dt));
    assert!(state.next_block_start(dt).is_none());
}

#[test]
fn test_second_slot_block() {
    // Monday: slot1 00:00-07:00, slot2 22:00-23:00.
    let mut cfg = AppConfig::default();
    for day in cfg.weekly_schedule.iter_mut() {
        day.enabled = false;
    }
    let mon = &mut cfg.weekly_schedule[0];
    mon.enabled = true;
    mon.start_hour = 0;
    mon.start_minute = 0;
    mon.end_hour = 7;
    mon.end_minute = 0;
    mon.start2_hour = 22;
    mon.start2_minute = 0;
    mon.end2_hour = 23;
    mon.end2_minute = 0;

    let state = AppState::new(cfg);
    let morning = at(2026, 9, 14, 3, 0, 0);
    let evening = at(2026, 9, 14, 22, 30, 0);
    let midday = at(2026, 9, 14, 12, 0, 0);
    assert!(state.is_time_in_schedule(morning));
    assert!(state.is_time_in_schedule(evening));
    assert!(!state.is_time_in_schedule(midday));

    // Between the slots the next block is the evening slot today.
    let between = at(2026, 9, 14, 8, 0, 0);
    let next = state.next_block_start(between).unwrap();
    assert_eq!((next.0, next.1, next.2, next.3), (0, 22, 0, 0));
}

#[test]
fn test_second_slot_crossing_spillover() {
    // Monday slot2 23:00-01:00 spills into Tuesday morning.
    let mut cfg = AppConfig::default();
    for day in cfg.weekly_schedule.iter_mut() {
        day.enabled = false;
    }
    let mon = &mut cfg.weekly_schedule[0];
    mon.enabled = true;
    mon.start_hour = 0;
    mon.start_minute = 0;
    mon.end_hour = 0;
    mon.end_minute = 0;
    mon.start2_hour = 23;
    mon.start2_minute = 0;
    mon.end2_hour = 1;
    mon.end2_minute = 0;

    let state = AppState::new(cfg);
    let mon_late = at(2026, 9, 14, 23, 30, 0);
    let tue_early = at(2026, 9, 15, 0, 30, 0);
    let tue_late = at(2026, 9, 15, 2, 0, 0);
    assert!(state.is_time_in_schedule(mon_late));
    assert!(state.is_time_in_schedule(tue_early));
    assert!(!state.is_time_in_schedule(tue_late));
}

#[test]
fn test_temp_allow_and_manual_override() {
    let cfg = AppConfig::default();
    let mut state = AppState::new(cfg);

    // Initially no override
    assert!(state.temp_allow_until.is_none());
    assert!(state.manual_override.is_none());

    // Set 30 min allow
    state.set_temporary_allow(30);
    assert!(state.temp_allow_until.is_some());

    // Cancel
    state.cancel_temporary_allow();
    assert!(state.temp_allow_until.is_none());

    // Toggle manual override
    state.toggle_manual_override();
    assert_eq!(state.manual_override, Some(true));

    state.toggle_manual_override();
    assert_eq!(state.manual_override, Some(true)); // last_applied_blocked was None so !false = true

    state.clear_manual_override();
    assert!(state.manual_override.is_none());
}
