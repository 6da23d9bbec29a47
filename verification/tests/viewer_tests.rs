use chrono::{Datelike, Local, TimeZone, Timelike};
use kid_internet_lock::clock::{local_now, Moment};
use kid_internet_lock::config::AppConfig;
use kid_internet_lock::lang;
use kid_internet_lock::scheduler::AppState;
use kid_internet_lock::viewer::{blocked_grid, describe_day, today_date_str};

fn at(y: i32, mo: u32, d: u32, h: u32, mi: u32, s: u32) -> Moment {
    let dt = Local.with_ymd_and_hms(y, mo, d, h, mi, s).unwrap();
    Moment {
        secs: dt.timestamp(),
        nanos: dt.timestamp_subsec_nanos(),
        month: dt.month(),
        day: dt.day(),
        weekday: dt.weekday().num_days_from_monday(),
        hour: dt.hour(),
        minute: dt.minute(),
    }
}

fn sample_cfg() -> AppConfig {
    let mut cfg = AppConfig::default();
    for day in cfg.weekly_schedule.iter_mut() {
        day.enabled = false;
    }
    // Monday: 00:00-07:00 and 22:00-23:00.
    let mon = &mut cfg.weekly_schedule[0];
    mon.enabled = true;
    mon.start_hour = 0;
    mon.start_minute = 0;
    mon.end_hour = 7;
    mon.end_minute = 0;
    mon.start2_hour = 22;
    mon.start2_minute = 0;
    mon.end2_hour = 23;
    mon.end2_minute = 0;
    // Wednesday: 23:00-06:00 crossing plus 12:00-13:00.
    let wed = &mut cfg.weekly_schedule[2];
    wed.enabled = true;
    wed.start_hour = 23;
    wed.start_minute = 0;
    wed.end_hour = 6;
    wed.end_minute = 0;
    wed.start2_hour = 12;
    wed.start2_minute = 0;
    wed.end2_hour = 13;
    wed.end2_minute = 0;
    // Sunday: second slot only, crossing 22:30-01:30.
    let sun = &mut cfg.weekly_schedule[6];
    sun.enabled = true;
    sun.start2_hour = 22;
    sun.start2_minute = 30;
    sun.end2_hour = 1;
    sun.end2_minute = 30;
    cfg
}

#[test]
fn viewer_grid_matches_scheduler_all_week() {
    let cfg = sample_cfg();
    let state = AppState::new(cfg.clone());
    // 2026-09-14 is a Monday.
    for day_offset in 0..7u32 {
        for minute in (0..1440u32).step_by(7) {
            let dt = at(2026, 9, 14 + day_offset, minute / 60, minute % 60, 0);
            assert_eq!(
                blocked_grid(&cfg, day_offset as usize)[minute as usize],
                state.is_time_in_schedule(dt),
                "day {} minute {}",
                day_offset,
                minute
            );
        }
    }
}

#[test]
fn viewer_day_descriptions() {
    let cfg = sample_cfg();
    assert_eq!(describe_day(&cfg, 0), "07:00 - 22:00,  23:00 - 24:00");
    // Tuesday disabled and no spillover into it.
    assert_eq!(describe_day(&cfg, 1), lang::AVAILABLE_ALL_DAY);
    assert_eq!(describe_day(&cfg, 2), "00:00 - 12:00,  13:00 - 23:00");
}

#[test]
fn viewer_today_text_wraps_description() {
    let cfg = sample_cfg();
    // Monday description embedded in both helpers.
    let mon_desc = describe_day(&cfg, 0);
    assert!(lang::viewer_today_ranges(&mon_desc).contains(&mon_desc));
    assert!(lang::viewer_tomorrow("X", &mon_desc).contains(&mon_desc));
    assert!(!today_date_str(local_now().unwrap()).is_empty());
}
