use chrono::{Datelike, Local, TimeZone, Timelike};
use kid_internet_lock::clock::Moment;
use kid_internet_lock::config::{AppConfig, DaySchedule};
use kid_internet_lock::lang_ko;
use kid_internet_lock::menu::{auth_prompt_title, tray_menu, MenuEntry, TrayCommand};
use kid_internet_lock::scheduler::{format_day_slots_in, AppState};
use kid_internet_lock::texts::{language_of_locale, Language};
use kid_internet_lock::viewer::{current_status_at, date_text, describe_day_in, today_title_text};

fn sept(d: u32, h: u32, mi: u32) -> Moment {
    let dt = Local.with_ymd_and_hms(2026, 9, d, h, mi, 0).unwrap();
    Moment {
        secs: dt.timestamp(),
        nanos: dt.timestamp_subsec_nanos(),
        month: dt.month(),
        day: dt.day(),
        weekday: dt.weekday().num_days_from_monday(),
        hour: dt.hour(),
        minute: dt.minute(),
    }
}

#[test]
fn korean_status_texts() {
    let mut state = AppState::new(AppConfig::default());
    state.language = Language::Korean;
    let (summary, tooltip) = state.describe_schedule(sept(16, 3, 30));
    assert_eq!(summary, "수 00:00-07:00 차단 중 (00:00-07:00) (07:00 해제)");
    assert_eq!(tooltip, "Kid Internet Lock\n상태: 🔴 차단 중 (수 00:00-07:00)\n해제: 07:00");
    let (summary, _) = state.describe_schedule(sept(16, 15, 0));
    assert_eq!(summary, "인터넷 허용 중 - 수요일 (00:00-07:00) (다음 차단 목 00:00-07:00)");
    let (status, _) = state.plan_sync(sept(16, 3, 30), 0);
    let shown = state.complete_sync(status, Some(false), 0);
    assert!(shown.summary.ends_with(lang_ko::FIREWALL_FAIL_SUMMARY_SUFFIX));
    let mut off = DaySchedule::from_window(0, 0, 0, 0);
    off.enabled = false;
    assert_eq!(format_day_slots_in(Language::Korean, &off), "없음");
}

#[test]
fn korean_viewer_texts() {
    let mut cfg = AppConfig::default();
    cfg.weekly_schedule[1].enabled = false;
    let mon = sept(14, 5, 0);
    assert_eq!(date_text(Language::Korean, mon), "9월 14일");
    assert_eq!(date_text(Language::English, mon), "Sep 14");
    assert_eq!(today_title_text(Language::Korean, mon), "오늘 9월 14일 월요일");
    assert_eq!(
        current_status_at(Language::Korean, &cfg, mon),
        "월요일 05:00 - 현재 차단 중 (07:00부터 사용 가능)"
    );
    assert_eq!(describe_day_in(Language::Korean, &cfg, 1), "종일 사용 가능");
    assert_eq!(describe_day_in(Language::Korean, &cfg, 0), "07:00 - 24:00");
}

#[test]
fn korean_menu_texts() {
    let m = tray_menu(Language::Korean, true, false);
    assert_eq!(m[0], MenuEntry::Label(lang_ko::TRAY_STATUS_BLOCKED));
    assert_eq!(auth_prompt_title(Language::Korean, TrayCommand::Allow30), "30분 허용 - 관리자 인증");
    assert_eq!(auth_prompt_title(Language::Korean, TrayCommand::Exit), lang_ko::AUTH_TITLE_EXIT);
    assert_eq!(lang_ko::temp_allow_summary(30), "임시 허용 중 (약 30분 남음)");
    assert_eq!(lang_ko::weekday_short(6), "일");
}

#[test]
fn language_from_locale_name() {
    assert_eq!(language_of_locale("ko-KR"), Language::Korean);
    assert_eq!(language_of_locale("ko"), Language::Korean);
    assert_eq!(language_of_locale("en-US"), Language::English);
    assert_eq!(language_of_locale("k"), Language::English);
    assert_eq!(language_of_locale(""), Language::English);
}
