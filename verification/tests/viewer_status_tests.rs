use chrono::{Datelike, Local, TimeZone, Timelike};
use kid_internet_lock::clock::Moment;
use kid_internet_lock::config::AppConfig;
use kid_internet_lock::lang;
use kid_internet_lock::texts::Language;
use kid_internet_lock::viewer::{
    current_status, current_status_at, today_date_str, today_ranges_text, today_title_text, tomorrow_text, week_row_text,
};

fn when(d: u32, h: u32, mi: u32) -> Moment {
    // September 2026: the 14th is a Monday.
    let dt = Local.with_ymd_and_hms(2026, 9, d, h, mi, 0).unwrap();
    Moment {
        secs: dt.timestamp(),
        nanos: dt.timestamp_subsec_nanos(),
        month: dt.month(),
        day: dt.day(),
        weekday: dt.weekday().num_days_from_monday(),
        hour: dt.hour(),
        minute: dt.minute(),
    }
}

fn week_cfg() -> AppConfig {
    let mut cfg = AppConfig::default();
    for day in cfg.weekly_schedule.iter_mut() {
        day.enabled = false;
    }
    let mon = &mut cfg.weekly_schedule[0];
    mon.enabled = true;
    mon.start2_hour = 22;
    mon.end2_hour = 23;
    let wed = &mut cfg.weekly_schedule[2];
    wed.enabled = true;
    wed.start_hour = 23;
    wed.end_hour = 6;
    wed.start2_hour = 12;
    wed.end2_hour = 13;
    cfg
}

#[test]
fn status_headline_while_blocked() {
    let cfg = week_cfg();
    assert_eq!(
        current_status_at(Language::English, &cfg, when(14, 5, 0)),
        "Monday 05:00  -  Blocked now (available from 07:00)"
    );
    // Wednesday night is blocked until Thursday 06:00.
    assert_eq!(
        current_status_at(Language::English, &cfg, when(16, 23, 5)),
        "Wednesday 23:05  -  Blocked now (available from Thursday 06:00)"
    );
}

#[test]
fn status_headline_while_available() {
    let cfg = week_cfg();
    assert_eq!(
        current_status_at(Language::English, &cfg, when(14, 8, 0)),
        "Monday 08:00  -  Available now (until 22:00)"
    );
    assert_eq!(
        current_status_at(Language::English, &cfg, when(14, 23, 30)),
        "Monday 23:30  -  Available now (until Wednesday 12:00)"
    );
}

#[test]
fn status_headline_all_week() {
    let mut open = AppConfig::default();
    for d in open.weekly_schedule.iter_mut() {
        d.enabled = false;
    }
    assert_eq!(current_status_at(Language::English, &open, when(15, 9, 0)), lang::VIEWER_ALL_WEEK_AVAILABLE);
    let mut closed = AppConfig::default();
    for d in closed.weekly_schedule.iter_mut() {
        d.end_hour = 24;
    }
    assert_eq!(current_status_at(Language::English, &closed, when(15, 9, 0)), lang::VIEWER_ALL_WEEK_BLOCKED);
}

#[test]
fn today_and_tomorrow_texts() {
    let cfg = week_cfg();
    let mon = when(14, 10, 0);
    assert_eq!(today_date_str(mon), "Sep 14");
    assert_eq!(today_date_str(when(5, 10, 0)), "Sep 05");
    assert_eq!(today_title_text(Language::English, mon), "Today, Monday Sep 14");
    assert_eq!(today_ranges_text(Language::English, &cfg, mon), "Available today: 07:00 - 22:00,  23:00 - 24:00");
    assert_eq!(tomorrow_text(Language::English, &cfg, mon), "Tomorrow (Tuesday): Available all day");
    let tue = when(15, 10, 0);
    assert_eq!(tomorrow_text(Language::English, &cfg, tue), "Tomorrow (Wednesday): 00:00 - 12:00,  13:00 - 23:00");
    let sun = when(20, 10, 0);
    assert_eq!(tomorrow_text(Language::English, &cfg, sun), "Tomorrow (Monday): 07:00 - 22:00,  23:00 - 24:00");
}

#[test]
fn weekly_list_rows() {
    let cfg = week_cfg();
    assert_eq!(week_row_text(Language::English, &cfg, 0, 0), "> Monday: 07:00 - 22:00,  23:00 - 24:00");
    assert_eq!(week_row_text(Language::English, &cfg, 1, 0), "    Tuesday: Available all day");
    assert_eq!(week_row_text(Language::English, &cfg, 3, 2), "    Thursday: 06:00 - 24:00");
}

#[test]
fn status_headline_now() {
    let cfg = week_cfg();
    let s = current_status(Language::English, &cfg).unwrap();
    assert!(s.contains("  -  Available now (until ") || s.contains("  -  Blocked now (available from "));
}
