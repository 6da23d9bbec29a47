use kid_internet_lock::config::{AppConfig, DaySchedule};

#[test]
fn default_config_values() {
    let cfg = AppConfig::default();
    assert_eq!((cfg.start_hour, cfg.start_minute, cfg.end_hour, cfg.end_minute), (0, 0, 7, 0));
    assert!(!cfg.auto_start);
    for d in cfg.weekly_schedule.iter() {
        assert_eq!(*d, DaySchedule::from_window(0, 0, 7, 0));
    }
    assert!(cfg.times_fit());
}

#[test]
fn day_slots_in_use() {
    let mut d = DaySchedule::from_window(22, 0, 6, 30);
    assert_eq!(d.slot1(), Some((1320, 390)));
    assert_eq!(d.slot2(), None);
    assert_eq!(d.active_slots(), vec![(1320, 390, 0)]);
    d.start2_hour = 12;
    d.end2_hour = 13;
    d.end2_minute = 15;
    assert_eq!(d.slot2(), Some((720, 795)));
    assert_eq!(d.active_slots(), vec![(1320, 390, 0), (720, 795, 1)]);
    assert_eq!(d.slot_start_hm(0), (22, 0));
    assert_eq!(d.slot_end_hm(0), (6, 30));
    assert_eq!(d.slot_start_hm(1), (12, 0));
    assert_eq!(d.slot_end_hm(1), (13, 15));
    d.enabled = false;
    assert_eq!(d.slot1(), None);
    assert!(d.active_slots().is_empty());
}

#[test]
fn legacy_window_and_weekly_schedule() {
    let week = AppConfig::weekly_from_legacy(23, 30, 6, 30);
    for d in week.iter() {
        assert_eq!(*d, DaySchedule::from_window(23, 30, 6, 30));
        assert!(d.enabled);
    }
    let mut cfg = AppConfig::default();
    cfg.weekly_schedule = week;
    cfg.weekly_schedule[1] = DaySchedule::from_window(1, 2, 3, 4);
    cfg.sync_legacy_from_weekly();
    assert_eq!((cfg.start_hour, cfg.start_minute, cfg.end_hour, cfg.end_minute), (23, 30, 6, 30));
    assert_eq!(cfg.weekly_schedule[1], DaySchedule::from_window(1, 2, 3, 4));
}

#[test]
fn times_that_do_not_fit() {
    let mut cfg = AppConfig::default();
    cfg.weekly_schedule[5].end2_hour = u32::MAX;
    assert!(!cfg.times_fit());
    cfg.weekly_schedule[5].end2_hour = 71_582_788;
    cfg.weekly_schedule[5].end2_minute = 15;
    assert!(cfg.times_fit());
    cfg.weekly_schedule[5].end2_minute = 16;
    assert!(!cfg.times_fit());
}

#[test]
fn stored_week_or_migrated_legacy_window() {
    let mut week = AppConfig::weekly_from_legacy(0, 0, 7, 0);
    week[2].enabled = false;
    assert_eq!(AppConfig::stored_weekly(Some(week), 22, 0, 6, 0), week);
    let migrated = AppConfig::stored_weekly(None, 22, 0, 6, 0);
    for d in migrated.iter() {
        assert_eq!(*d, DaySchedule::from_window(22, 0, 6, 0));
    }
}
