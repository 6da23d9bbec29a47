use kid_internet_lock::config::{AppConfig, DaySchedule};
use kid_internet_lock::settings::{apply_week, check_password_change, pad_time_field, parse_hm, PasswordChange};

#[test]
fn parse_hm_accepts_valid_times() {
    assert_eq!(parse_hm("07", "30"), Some((7, 30)));
    assert_eq!(parse_hm("0", "0"), Some((0, 0)));
    assert_eq!(parse_hm("23", "59"), Some((23, 59)));
    assert_eq!(parse_hm("+1", "05"), Some((1, 5)));
}

#[test]
fn parse_hm_rejects_out_of_range_or_non_numbers() {
    assert_eq!(parse_hm("24", "00"), None);
    assert_eq!(parse_hm("7", "60"), None);
    assert_eq!(parse_hm("", "10"), None);
    assert_eq!(parse_hm("10", ""), None);
    assert_eq!(parse_hm("-1", "10"), None);
    assert_eq!(parse_hm("ab", "10"), None);
}

#[test]
fn pad_time_field_on_focus_loss() {
    assert_eq!(pad_time_field(""), Some("00".to_string()));
    assert_eq!(pad_time_field("5"), Some("05".to_string()));
    assert_eq!(pad_time_field("0"), Some("00".to_string()));
    assert_eq!(pad_time_field("12"), None);
    assert_eq!(pad_time_field("a"), None);
}

#[test]
fn password_change_answers_in_order() {
    let cfg = AppConfig::default();
    assert_eq!(check_password_change(&cfg, "wrong", "", "x"), PasswordChange::WrongCurrent);
    assert_eq!(check_password_change(&cfg, "1q2w3e", "", ""), PasswordChange::EmptyNew);
    assert_eq!(check_password_change(&cfg, "1q2w3e", "abc", "abd"), PasswordChange::Mismatch);
    assert_eq!(check_password_change(&cfg, "1q2w3e", "abc", "abc"), PasswordChange::Accepted);
}

#[test]
fn apply_week_stores_days_and_mirrors_monday() {
    let mut cfg = AppConfig::default();
    let salt = cfg.password_salt.clone();
    let mut days = cfg.weekly_schedule;
    days[0] = DaySchedule::from_window(22, 15, 6, 45);
    days[3].enabled = false;
    apply_week(&mut cfg, &days, true);
    assert_eq!(cfg.weekly_schedule, days);
    assert!(cfg.auto_start);
    assert_eq!((cfg.start_hour, cfg.start_minute, cfg.end_hour, cfg.end_minute), (22, 15, 6, 45));
    assert_eq!(cfg.password_salt, salt);
    assert!(cfg.verify_password("1q2w3e"));
}
