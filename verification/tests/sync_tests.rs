use chrono::{Datelike, Duration, Local, TimeZone, Timelike};
use kid_internet_lock::clock::Moment;
use kid_internet_lock::config::AppConfig;
use kid_internet_lock::lang;
use kid_internet_lock::scheduler::{format_day_slots, format_hm, format_slot, AppState, StatusType};

fn moment_of(dt: chrono::DateTime<Local>) -> Moment {
    Moment {
        secs: dt.timestamp(),
        nanos: dt.timestamp_subsec_nanos(),
        month: dt.month(),
        day: dt.day(),
        weekday: dt.weekday().num_days_from_monday(),
        hour: dt.hour(),
        minute: dt.minute(),
    }
}

fn wed(h: u32, m: u32) -> Moment {
    // 2026-09-16 is a Wednesday.
    moment_of(Local.with_ymd_and_hms(2026, 9, 16, h, m, 0).unwrap())
}

#[test]
fn slot_formatting() {
    assert_eq!(format_slot(1, 2, 3, 4), "01:02-03:04");
    assert_eq!(format_slot(23, 30, 6, 30), "23:30-06:30");
    assert_eq!(format_hm(7, 5), "07:05");
    let cfg = AppConfig::default();
    assert_eq!(format_day_slots(&cfg.weekly_schedule[0]), "00:00-07:00");
    let mut two = cfg.weekly_schedule[0];
    two.start2_hour = 22;
    two.end2_hour = 23;
    assert_eq!(format_day_slots(&two), "00:00-07:00, 22:00-23:00");
    let mut second_only = two;
    second_only.end_hour = 0;
    assert_eq!(format_day_slots(&second_only), "22:00-23:00");
    let mut off = two;
    off.enabled = false;
    assert_eq!(format_day_slots(&off), "none");
}

#[test]
fn describe_schedule_while_blocked() {
    let state = AppState::new(AppConfig::default());
    let now = wed(3, 30);
    assert_eq!(state.current_block_end(now), Some((7, 0, 2, 0)));
    let (summary, tooltip) = state.describe_schedule(now);
    assert_eq!(summary, "Internet blocked - Wed 00:00-07:00 (00:00-07:00) (unblocks at 07:00)");
    assert_eq!(tooltip, "Kid Internet Lock\nStatus: 🔴 Blocked (Wed 00:00-07:00)\nUnblocks at: 07:00");
}

#[test]
fn describe_schedule_while_allowed() {
    let state = AppState::new(AppConfig::default());
    let now = wed(15, 0);
    assert_eq!(state.current_block_end(now), None);
    assert_eq!(state.next_block_start(now), Some((3, 0, 0, 1, 0)));
    let (summary, tooltip) = state.describe_schedule(now);
    assert_eq!(summary, "Internet allowed - Wednesday (00:00-07:00) (next block Thu 00:00-07:00)");
    assert_eq!(tooltip, "Kid Internet Lock\nStatus: 🟢 Allowed (Wednesday)\nNext block: Thu 00:00-07:00");
}

#[test]
fn describe_schedule_without_blocks() {
    let mut cfg = AppConfig::default();
    for d in cfg.weekly_schedule.iter_mut() {
        d.enabled = false;
    }
    let state = AppState::new(cfg);
    let (summary, tooltip) = state.describe_schedule(wed(3, 0));
    assert_eq!(summary, lang::ALLOWED_NONE_SUMMARY);
    assert_eq!(tooltip, lang::ALLOWED_NONE_TOOLTIP);
}

#[test]
fn describe_schedule_during_spillover() {
    let mut cfg = AppConfig::default();
    for d in cfg.weekly_schedule.iter_mut() {
        d.start_hour = 23;
        d.start_minute = 30;
        d.end_hour = 6;
        d.end_minute = 30;
    }
    let state = AppState::new(cfg);
    let now = wed(3, 0);
    assert_eq!(state.current_block_end(now), Some((6, 30, 1, 0)));
    let (summary, _) = state.describe_schedule(now);
    assert_eq!(summary, "Internet blocked - Tue 23:30-06:30 (23:30-06:30) (unblocks at 06:30)");
    // Later the same evening the block belongs to Wednesday itself.
    assert_eq!(state.current_block_end(wed(23, 45)), Some((6, 30, 2, 0)));
    assert_eq!(state.next_block_start(wed(12, 0)), Some((2, 23, 30, 0, 0)));
}

#[test]
fn sync_applies_each_change_once() {
    let mut state = AppState::new(AppConfig::default());
    let now = wed(3, 30);
    let (status, apply) = state.plan_sync(now, 0);
    assert!(status.is_blocked);
    assert_eq!(status.status_type, StatusType::BlockedSchedule);
    assert!(apply);
    let done = state.complete_sync(status, Some(true), 0);
    assert_eq!(state.last_applied_blocked, Some(true));
    assert_eq!(state.last_apply_attempt, Some(0));
    assert_eq!(done.summary, "Internet blocked - Wed 00:00-07:00 (00:00-07:00) (unblocks at 07:00)");
    // Nothing to change afterwards.
    let (again, apply_again) = state.plan_sync(wed(4, 0), 1_000);
    assert!(again.is_blocked);
    assert!(!apply_again);
    // At 07:00 the rule is lifted at once, even right after the last change.
    let (later, apply_later) = state.plan_sync(wed(7, 0), 1_500);
    assert!(!later.is_blocked);
    assert_eq!(later.status_type, StatusType::AllowedNormal);
    assert!(apply_later);
}

#[test]
fn failed_apply_is_retried_after_fifteen_seconds() {
    let mut state = AppState::new(AppConfig::default());
    let now = wed(3, 30);
    let (status, apply) = state.plan_sync(now, 100_000);
    assert!(apply);
    let shown = state.complete_sync(status, Some(false), 100_000);
    assert!(state.apply_failed);
    assert_eq!(state.last_applied_blocked, None);
    assert!(shown.summary.ends_with(lang::FIREWALL_FAIL_SUMMARY_SUFFIX));
    assert!(shown.tooltip.ends_with(lang::FIREWALL_FAIL_TOOLTIP_SUFFIX));
    let (status, apply) = state.plan_sync(now, 114_999);
    assert!(!apply);
    let shown = state.complete_sync(status, None, 114_999);
    assert!(shown.summary.ends_with(lang::FIREWALL_FAIL_SUMMARY_SUFFIX));
    assert_eq!(state.last_apply_attempt, Some(100_000));
    let (status, apply) = state.plan_sync(now, 115_000);
    assert!(apply);
    let shown = state.complete_sync(status, Some(true), 115_000);
    assert!(!state.apply_failed);
    assert!(!shown.summary.ends_with(lang::FIREWALL_FAIL_SUMMARY_SUFFIX));
}

#[test]
fn manual_override_wins_over_schedule_and_temporary_allow() {
    let mut state = AppState::new(AppConfig::default());
    state.manual_override = Some(false);
    state.temp_allow_until = Some(wed(4, 0));
    let (status, _) = state.plan_sync(wed(3, 30), 0);
    assert!(!status.is_blocked);
    assert_eq!(status.status_type, StatusType::AllowedManual);
    assert_eq!(status.summary, lang::MANUAL_ALLOWED_SUMMARY);
    assert_eq!(status.tooltip, lang::MANUAL_ALLOWED_TOOLTIP);
    state.manual_override = Some(true);
    let (status, _) = state.plan_sync(wed(15, 0), 0);
    assert!(status.is_blocked);
    assert_eq!(status.status_type, StatusType::BlockedManual);
    assert_eq!(status.summary, lang::MANUAL_BLOCKED_SUMMARY);
    state.clear_manual_override();
    assert_eq!(state.manual_override, None);
}

#[test]
fn toggle_flips_what_was_applied() {
    let mut state = AppState::new(AppConfig::default());
    state.temp_allow_until = Some(wed(4, 0));
    state.toggle_manual_override();
    assert_eq!(state.manual_override, Some(true));
    assert_eq!(state.temp_allow_until, None);
    state.last_applied_blocked = Some(true);
    state.toggle_manual_override();
    assert_eq!(state.manual_override, Some(false));
}

#[test]
fn temporary_allow_counts_down_and_expires() {
    let mut state = AppState::new(AppConfig::default());
    state.manual_override = Some(true);
    let start = Local.with_ymd_and_hms(2026, 9, 16, 3, 0, 0).unwrap();
    let now = moment_of(start);
    state.set_temporary_allow_at(now, 30);
    assert_eq!(state.manual_override, None);
    let until = state.temp_allow_until.unwrap();
    assert_eq!(until.secs, now.secs + 1800);
    let end = start + Duration::minutes(30);
    let until_text = end.format("%H:%M").to_string();
    assert_eq!((until.hour, until.minute), (end.hour(), end.minute()));

    let (status, _) = state.plan_sync(now, 0);
    assert!(!status.is_blocked);
    assert_eq!(status.status_type, StatusType::AllowedTemporary);
    assert_eq!(status.summary, "Temporary allow active (about 30 min left)");
    assert_eq!(
        status.tooltip,
        format!("Kid Internet Lock\nStatus: 🟢 Temporary allow active\nRemaining: about 30 min (until {})", until_text)
    );
    // Half a minute before the end one (rounded up) minute is left.
    let (status, _) = state.plan_sync(moment_of(end - Duration::seconds(30)), 0);
    assert_eq!(status.summary, "Temporary allow active (about 1 min left)");
    // At the end the temporary allow is gone and the schedule blocks again.
    let (status, _) = state.plan_sync(moment_of(end), 0);
    assert_eq!(state.temp_allow_until, None);
    assert!(status.is_blocked);
    assert_eq!(status.status_type, StatusType::BlockedSchedule);
}

#[test]
fn cancel_and_set_temporary_allow_now() {
    let mut state = AppState::new(AppConfig::default());
    state.manual_override = Some(true);
    let now = state.set_temporary_allow(60).unwrap();
    let until = state.temp_allow_until.unwrap();
    assert_eq!((until.secs, until.nanos), (now.secs + 3600, now.nanos));
    assert_eq!(state.manual_override, None);
    state.cancel_temporary_allow();
    assert!(state.temp_allow_until.is_none());
}
