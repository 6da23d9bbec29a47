//! The texts that the library builds, in the language the user chose.

use vstd::prelude::*;
use crate::lang;
use crate::lang_ko;

verus! {

/// The language of the user interface.
#[derive(Clone, Copy, Debug, PartialEq, Eq)]
pub enum Language {
    English,
    Korean,
}

/// The language for a Windows locale name such as `ko-KR`: Korean for the
/// `ko` locales, English otherwise.
pub open spec fn language_of_locale_spec(locale: Seq<char>) -> Language {
    if locale.len() >= 2 && locale[0] == 'k' && locale[1] == 'o' {
        Language::Korean
    } else {
        Language::English
    }
}

/// The language for a Windows locale name.
pub fn language_of_locale(locale: &str) -> (l: Language)
    ensures
        l == language_of_locale_spec(locale@),
{
    if locale.unicode_len() >= 2 && locale.get_char(0) == 'k' && locale.get_char(1) == 'o' {
        Language::Korean
    } else {
        Language::English
    }
}

/// Short name of weekday `i` (Monday = 0 .. Sunday = 6).
pub open spec fn weekday_short_spec(l: Language, i: int) -> Seq<char> {
    match l {
        Language::English => lang::weekday_short_spec(i),
        Language::Korean => lang_ko::weekday_short_spec(i),
    }
}

/// Short name of weekday `i`; `i` must be below 7.
pub fn weekday_short(l: Language, i: usize) -> (s: &'static str)
    requires
        i < 7,
    ensures
        s@ == weekday_short_spec(l, i as int),
{
    match l {
        Language::English => lang::weekday_short(i),
        Language::Korean => lang_ko::weekday_short(i),
    }
}

/// Full name of weekday `i` (Monday = 0 .. Sunday = 6).
pub open spec fn weekday_full_spec(l: Language, i: int) -> Seq<char> {
    match l {
        Language::English => lang::weekday_full_spec(i),
        Language::Korean => lang_ko::weekday_full_spec(i),
    }
}

/// Full name of weekday `i`; `i` must be below 7.
pub fn weekday_full(l: Language, i: usize) -> (s: &'static str)
    requires
        i < 7,
    ensures
        s@ == weekday_full_spec(l, i as int),
{
    match l {
        Language::English => lang::weekday_full(i),
        Language::Korean => lang_ko::weekday_full(i),
    }
}

/// `ALLOWED_NONE_SUMMARY` in language `l`.
pub open spec fn allowed_none_summary_spec(l: Language) -> &'static str {
    match l {
        Language::English => lang::ALLOWED_NONE_SUMMARY,
        Language::Korean => lang_ko::ALLOWED_NONE_SUMMARY,
    }
}

/// `ALLOWED_NONE_SUMMARY` in language `l`.
pub fn allowed_none_summary(l: Language) -> (s: &'static str)
    ensures
        s == allowed_none_summary_spec(l),
{
    match l {
        Language::English => lang::ALLOWED_NONE_SUMMARY,
        Language::Korean => lang_ko::ALLOWED_NONE_SUMMARY,
    }
}

/// `ALLOWED_NONE_TOOLTIP` in language `l`.
pub open spec fn allowed_none_tooltip_spec(l: Language) -> &'static str {
    match l {
        Language::English => lang::ALLOWED_NONE_TOOLTIP,
        Language::Korean => lang_ko::ALLOWED_NONE_TOOLTIP,
    }
}

/// `ALLOWED_NONE_TOOLTIP` in language `l`.
pub fn allowed_none_tooltip(l: Language) -> (s: &'static str)
    ensures
        s == allowed_none_tooltip_spec(l),
{
    match l {
        Language::English => lang::ALLOWED_NONE_TOOLTIP,
        Language::Korean => lang_ko::ALLOWED_NONE_TOOLTIP,
    }
}

/// `AUTH_TITLE_EXIT` in language `l`.
pub open spec fn auth_title_exit_spec(l: Language) -> &'static str {
    match l {
        Language::English => lang::AUTH_TITLE_EXIT,
        Language::Korean => lang_ko::AUTH_TITLE_EXIT,
    }
}

/// `AUTH_TITLE_EXIT` in language `l`.
pub fn auth_title_exit(l: Language) -> (s: &'static str)
    ensures
        s == auth_title_exit_spec(l),
{
    match l {
        Language::English => lang::AUTH_TITLE_EXIT,
        Language::Korean => lang_ko::AUTH_TITLE_EXIT,
    }
}

/// `AUTH_TITLE_SETTINGS` in language `l`.
pub open spec fn auth_title_settings_spec(l: Language) -> &'static str {
    match l {
        Language::English => lang::AUTH_TITLE_SETTINGS,
        Language::Korean => lang_ko::AUTH_TITLE_SETTINGS,
    }
}

/// `AUTH_TITLE_SETTINGS` in language `l`.
pub fn auth_title_settings(l: Language) -> (s: &'static str)
    ensures
        s == auth_title_settings_spec(l),
{
    match l {
        Language::English => lang::AUTH_TITLE_SETTINGS,
        Language::Korean => lang_ko::AUTH_TITLE_SETTINGS,
    }
}

/// `AVAILABLE_ALL_DAY` in language `l`.
pub open spec fn available_all_day_spec(l: Language) -> &'static str {
    match l {
        Language::English => lang::AVAILABLE_ALL_DAY,
        Language::Korean => lang_ko::AVAILABLE_ALL_DAY,
    }
}

/// `AVAILABLE_ALL_DAY` in language `l`.
pub fn available_all_day(l: Language) -> (s: &'static str)
    ensures
        s == available_all_day_spec(l),
{
    match l {
        Language::English => lang::AVAILABLE_ALL_DAY,
        Language::Korean => lang_ko::AVAILABLE_ALL_DAY,
    }
}

/// `BLOCKED_ALL_DAY` in language `l`.
pub open spec fn blocked_all_day_spec(l: Language) -> &'static str {
    match l {
        Language::English => lang::BLOCKED_ALL_DAY,
        Language::Korean => lang_ko::BLOCKED_ALL_DAY,
    }
}

/// `BLOCKED_ALL_DAY` in language `l`.
pub fn blocked_all_day(l: Language) -> (s: &'static str)
    ensures
        s == blocked_all_day_spec(l),
{
    match l {
        Language::English => lang::BLOCKED_ALL_DAY,
        Language::Korean => lang_ko::BLOCKED_ALL_DAY,
    }
}

/// `BTN_ALLOW_30` in language `l`.
pub open spec fn btn_allow_30_spec(l: Language) -> &'static str {
    match l {
        Language::English => lang::BTN_ALLOW_30,
        Language::Korean => lang_ko::BTN_ALLOW_30,
    }
}

/// `BTN_ALLOW_30` in language `l`.
pub fn btn_allow_30(l: Language) -> (s: &'static str)
    ensures
        s == btn_allow_30_spec(l),
{
    match l {
        Language::English => lang::BTN_ALLOW_30,
        Language::Korean => lang_ko::BTN_ALLOW_30,
    }
}

/// `BTN_ALLOW_60` in language `l`.
pub open spec fn btn_allow_60_spec(l: Language) -> &'static str {
    match l {
        Language::English => lang::BTN_ALLOW_60,
        Language::Korean => lang_ko::BTN_ALLOW_60,
    }
}

/// `BTN_ALLOW_60` in language `l`.
pub fn btn_allow_60(l: Language) -> (s: &'static str)
    ensures
        s == btn_allow_60_spec(l),
{
    match l {
        Language::English => lang::BTN_ALLOW_60,
        Language::Korean => lang_ko::BTN_ALLOW_60,
    }
}

/// `BTN_TEMP_CANCEL` in language `l`.
pub open spec fn btn_temp_cancel_spec(l: Language) -> &'static str {
    match l {
        Language::English => lang::BTN_TEMP_CANCEL,
        Language::Korean => lang_ko::BTN_TEMP_CANCEL,
    }
}

/// `BTN_TEMP_CANCEL` in language `l`.
pub fn btn_temp_cancel(l: Language) -> (s: &'static str)
    ensures
        s == btn_temp_cancel_spec(l),
{
    match l {
        Language::English => lang::BTN_TEMP_CANCEL,
        Language::Korean => lang_ko::BTN_TEMP_CANCEL,
    }
}

/// `BTN_TOGGLE` in language `l`.
pub open spec fn btn_toggle_spec(l: Language) -> &'static str {
    match l {
        Language::English => lang::BTN_TOGGLE,
        Language::Korean => lang_ko::BTN_TOGGLE,
    }
}

/// `BTN_TOGGLE` in language `l`.
pub fn btn_toggle(l: Language) -> (s: &'static str)
    ensures
        s == btn_toggle_spec(l),
{
    match l {
        Language::English => lang::BTN_TOGGLE,
        Language::Korean => lang_ko::BTN_TOGGLE,
    }
}

/// `FIREWALL_FAIL_SUMMARY_SUFFIX` in language `l`.
pub open spec fn firewall_fail_summary_suffix_spec(l: Language) -> &'static str {
    match l {
        Language::English => lang::FIREWALL_FAIL_SUMMARY_SUFFIX,
        Language::Korean => lang_ko::FIREWALL_FAIL_SUMMARY_SUFFIX,
    }
}

/// `FIREWALL_FAIL_SUMMARY_SUFFIX` in language `l`.
pub fn firewall_fail_summary_suffix(l: Language) -> (s: &'static str)
    ensures
        s == firewall_fail_summary_suffix_spec(l),
{
    match l {
        Language::English => lang::FIREWALL_FAIL_SUMMARY_SUFFIX,
        Language::Korean => lang_ko::FIREWALL_FAIL_SUMMARY_SUFFIX,
    }
}

/// `FIREWALL_FAIL_TOOLTIP_SUFFIX` in language `l`.
pub open spec fn firewall_fail_tooltip_suffix_spec(l: Language) -> &'static str {
    match l {
        Language::English => lang::FIREWALL_FAIL_TOOLTIP_SUFFIX,
        Language::Korean => lang_ko::FIREWALL_FAIL_TOOLTIP_SUFFIX,
    }
}

/// `FIREWALL_FAIL_TOOLTIP_SUFFIX` in language `l`.
pub fn firewall_fail_tooltip_suffix(l: Language) -> (s: &'static str)
    ensures
        s == firewall_fail_tooltip_suffix_spec(l),
{
    match l {
        Language::English => lang::FIREWALL_FAIL_TOOLTIP_SUFFIX,
        Language::Korean => lang_ko::FIREWALL_FAIL_TOOLTIP_SUFFIX,
    }
}

/// `MANUAL_ALLOWED_SUMMARY` in language `l`.
pub open spec fn manual_allowed_summary_spec(l: Language) -> &'static str {
    match l {
        Language::English => lang::MANUAL_ALLOWED_SUMMARY,
        Language::Korean => lang_ko::MANUAL_ALLOWED_SUMMARY,
    }
}

/// `MANUAL_ALLOWED_SUMMARY` in language `l`.
pub fn manual_allowed_summary(l: Language) -> (s: &'static str)
    ensures
        s == manual_allowed_summary_spec(l),
{
    match l {
        Language::English => lang::MANUAL_ALLOWED_SUMMARY,
        Language::Korean => lang_ko::MANUAL_ALLOWED_SUMMARY,
    }
}

/// `MANUAL_ALLOWED_TOOLTIP` in language `l`.
pub open spec fn manual_allowed_tooltip_spec(l: Language) -> &'static str {
    match l {
        Language::English => lang::MANUAL_ALLOWED_TOOLTIP,
        Language::Korean => lang_ko::MANUAL_ALLOWED_TOOLTIP,
    }
}

/// `MANUAL_ALLOWED_TOOLTIP` in language `l`.
pub fn manual_allowed_tooltip(l: Language) -> (s: &'static str)
    ensures
        s == manual_allowed_tooltip_spec(l),
{
    match l {
        Language::English => lang::MANUAL_ALLOWED_TOOLTIP,
        Language::Korean => lang_ko::MANUAL_ALLOWED_TOOLTIP,
    }
}

/// `MANUAL_BLOCKED_SUMMARY` in language `l`.
pub open spec fn manual_blocked_summary_spec(l: Language) -> &'static str {
    match l {
        Language::English => lang::MANUAL_BLOCKED_SUMMARY,
        Language::Korean => lang_ko::MANUAL_BLOCKED_SUMMARY,
    }
}

/// `MANUAL_BLOCKED_SUMMARY` in language `l`.
pub fn manual_blocked_summary(l: Language) -> (s: &'static str)
    ensures
        s == manual_blocked_summary_spec(l),
{
    match l {
        Language::English => lang::MANUAL_BLOCKED_SUMMARY,
        Language::Korean => lang_ko::MANUAL_BLOCKED_SUMMARY,
    }
}

/// `MANUAL_BLOCKED_TOOLTIP` in language `l`.
pub open spec fn manual_blocked_tooltip_spec(l: Language) -> &'static str {
    match l {
        Language::English => lang::MANUAL_BLOCKED_TOOLTIP,
        Language::Korean => lang_ko::MANUAL_BLOCKED_TOOLTIP,
    }
}

/// `MANUAL_BLOCKED_TOOLTIP` in language `l`.
pub fn manual_blocked_tooltip(l: Language) -> (s: &'static str)
    ensures
        s == manual_blocked_tooltip_spec(l),
{
    match l {
        Language::English => lang::MANUAL_BLOCKED_TOOLTIP,
        Language::Korean => lang_ko::MANUAL_BLOCKED_TOOLTIP,
    }
}

/// `MENU_EXIT` in language `l`.
pub open spec fn menu_exit_spec(l: Language) -> &'static str {
    match l {
        Language::English => lang::MENU_EXIT,
        Language::Korean => lang_ko::MENU_EXIT,
    }
}

/// `MENU_EXIT` in language `l`.
pub fn menu_exit(l: Language) -> (s: &'static str)
    ensures
        s == menu_exit_spec(l),
{
    match l {
        Language::English => lang::MENU_EXIT,
        Language::Korean => lang_ko::MENU_EXIT,
    }
}

/// `MENU_SETTINGS` in language `l`.
pub open spec fn menu_settings_spec(l: Language) -> &'static str {
    match l {
        Language::English => lang::MENU_SETTINGS,
        Language::Korean => lang_ko::MENU_SETTINGS,
    }
}

/// `MENU_SETTINGS` in language `l`.
pub fn menu_settings(l: Language) -> (s: &'static str)
    ensures
        s == menu_settings_spec(l),
{
    match l {
        Language::English => lang::MENU_SETTINGS,
        Language::Korean => lang_ko::MENU_SETTINGS,
    }
}

/// `SLOTS_NONE` in language `l`.
pub open spec fn slots_none_spec(l: Language) -> &'static str {
    match l {
        Language::English => lang::SLOTS_NONE,
        Language::Korean => lang_ko::SLOTS_NONE,
    }
}

/// `SLOTS_NONE` in language `l`.
pub fn slots_none(l: Language) -> (s: &'static str)
    ensures
        s == slots_none_spec(l),
{
    match l {
        Language::English => lang::SLOTS_NONE,
        Language::Korean => lang_ko::SLOTS_NONE,
    }
}

/// `TRAY_STATUS_ALLOWED` in language `l`.
pub open spec fn tray_status_allowed_spec(l: Language) -> &'static str {
    match l {
        Language::English => lang::TRAY_STATUS_ALLOWED,
        Language::Korean => lang_ko::TRAY_STATUS_ALLOWED,
    }
}

/// `TRAY_STATUS_ALLOWED` in language `l`.
pub fn tray_status_allowed(l: Language) -> (s: &'static str)
    ensures
        s == tray_status_allowed_spec(l),
{
    match l {
        Language::English => lang::TRAY_STATUS_ALLOWED,
        Language::Korean => lang_ko::TRAY_STATUS_ALLOWED,
    }
}

/// `TRAY_STATUS_BLOCKED` in language `l`.
pub open spec fn tray_status_blocked_spec(l: Language) -> &'static str {
    match l {
        Language::English => lang::TRAY_STATUS_BLOCKED,
        Language::Korean => lang_ko::TRAY_STATUS_BLOCKED,
    }
}

/// `TRAY_STATUS_BLOCKED` in language `l`.
pub fn tray_status_blocked(l: Language) -> (s: &'static str)
    ensures
        s == tray_status_blocked_spec(l),
{
    match l {
        Language::English => lang::TRAY_STATUS_BLOCKED,
        Language::Korean => lang_ko::TRAY_STATUS_BLOCKED,
    }
}

/// `VIEWER_ALL_WEEK_AVAILABLE` in language `l`.
pub open spec fn viewer_all_week_available_spec(l: Language) -> &'static str {
    match l {
        Language::English => lang::VIEWER_ALL_WEEK_AVAILABLE,
        Language::Korean => lang_ko::VIEWER_ALL_WEEK_AVAILABLE,
    }
}

/// `VIEWER_ALL_WEEK_AVAILABLE` in language `l`.
pub fn viewer_all_week_available(l: Language) -> (s: &'static str)
    ensures
        s == viewer_all_week_available_spec(l),
{
    match l {
        Language::English => lang::VIEWER_ALL_WEEK_AVAILABLE,
        Language::Korean => lang_ko::VIEWER_ALL_WEEK_AVAILABLE,
    }
}

/// `VIEWER_ALL_WEEK_BLOCKED` in language `l`.
pub open spec fn viewer_all_week_blocked_spec(l: Language) -> &'static str {
    match l {
        Language::English => lang::VIEWER_ALL_WEEK_BLOCKED,
        Language::Korean => lang_ko::VIEWER_ALL_WEEK_BLOCKED,
    }
}

/// `VIEWER_ALL_WEEK_BLOCKED` in language `l`.
pub fn viewer_all_week_blocked(l: Language) -> (s: &'static str)
    ensures
        s == viewer_all_week_blocked_spec(l),
{
    match l {
        Language::English => lang::VIEWER_ALL_WEEK_BLOCKED,
        Language::Korean => lang_ko::VIEWER_ALL_WEEK_BLOCKED,
    }
}

/// Status summary while allowed, with the next scheduled block.
pub open spec fn allowed_summary_spec(l: Language, today: Seq<char>, today_slots: Seq<char>, next: Seq<char>, next_slots: Seq<char>) -> Seq<char> {
    match l {
        Language::English => lang::allowed_summary_spec(today, today_slots, next, next_slots),
        Language::Korean => lang_ko::allowed_summary_spec(today, today_slots, next, next_slots),
    }
}

/// Status summary while allowed, with the next scheduled block.
pub fn allowed_summary(l: Language, today: &str, today_slots: &str, next: &str, next_slots: &str) -> (s: String)
    ensures
        s@ == allowed_summary_spec(l, today@, today_slots@, next@, next_slots@),
{
    match l {
        Language::English => lang::allowed_summary(today, today_slots, next, next_slots),
        Language::Korean => lang_ko::allowed_summary(today, today_slots, next, next_slots),
    }
}

/// Tray tooltip while allowed, with the next scheduled block.
pub open spec fn allowed_tooltip_spec(l: Language, today: Seq<char>, next: Seq<char>, next_slots: Seq<char>) -> Seq<char> {
    match l {
        Language::English => lang::allowed_tooltip_spec(today, next, next_slots),
        Language::Korean => lang_ko::allowed_tooltip_spec(today, next, next_slots),
    }
}

/// Tray tooltip while allowed, with the next scheduled block.
pub fn allowed_tooltip(l: Language, today: &str, next: &str, next_slots: &str) -> (s: String)
    ensures
        s@ == allowed_tooltip_spec(l, today@, next@, next_slots@),
{
    match l {
        Language::English => lang::allowed_tooltip(today, next, next_slots),
        Language::Korean => lang_ko::allowed_tooltip(today, next, next_slots),
    }
}

/// Title of the password prompt for an action.
pub open spec fn auth_title_spec(l: Language, action: Seq<char>) -> Seq<char> {
    match l {
        Language::English => lang::auth_title_spec(action),
        Language::Korean => lang_ko::auth_title_spec(action),
    }
}

/// Title of the password prompt for an action.
pub fn auth_title(l: Language, action: &str) -> (s: String)
    ensures
        s@ == auth_title_spec(l, action@),
{
    match l {
        Language::English => lang::auth_title(action),
        Language::Korean => lang_ko::auth_title(action),
    }
}

/// Status summary while a scheduled block is active.
pub open spec fn blocked_summary_spec(l: Language, src: Seq<char>, active: Seq<char>, all: Seq<char>, end: Seq<char>) -> Seq<char> {
    match l {
        Language::English => lang::blocked_summary_spec(src, active, all, end),
        Language::Korean => lang_ko::blocked_summary_spec(src, active, all, end),
    }
}

/// Status summary while a scheduled block is active.
pub fn blocked_summary(l: Language, src: &str, active: &str, all: &str, end: &str) -> (s: String)
    ensures
        s@ == blocked_summary_spec(l, src@, active@, all@, end@),
{
    match l {
        Language::English => lang::blocked_summary(src, active, all, end),
        Language::Korean => lang_ko::blocked_summary(src, active, all, end),
    }
}

/// Tray tooltip while a scheduled block is active.
pub open spec fn blocked_tooltip_spec(l: Language, src: Seq<char>, all: Seq<char>, end: Seq<char>) -> Seq<char> {
    match l {
        Language::English => lang::blocked_tooltip_spec(src, all, end),
        Language::Korean => lang_ko::blocked_tooltip_spec(src, all, end),
    }
}

/// Tray tooltip while a scheduled block is active.
pub fn blocked_tooltip(l: Language, src: &str, all: &str, end: &str) -> (s: String)
    ensures
        s@ == blocked_tooltip_spec(l, src@, all@, end@),
{
    match l {
        Language::English => lang::blocked_tooltip(src, all, end),
        Language::Korean => lang_ko::blocked_tooltip(src, all, end),
    }
}

/// Status summary during a temporary allow.
pub open spec fn temp_allow_summary_spec(l: Language, mins: int) -> Seq<char> {
    match l {
        Language::English => lang::temp_allow_summary_spec(mins),
        Language::Korean => lang_ko::temp_allow_summary_spec(mins),
    }
}

/// Status summary during a temporary allow.
pub fn temp_allow_summary(l: Language, mins: i64) -> (s: String)
    ensures
        s@ == temp_allow_summary_spec(l, mins as int),
{
    match l {
        Language::English => lang::temp_allow_summary(mins),
        Language::Korean => lang_ko::temp_allow_summary(mins),
    }
}

/// Tray tooltip during a temporary allow.
pub open spec fn temp_allow_tooltip_spec(l: Language, mins: int, until: Seq<char>) -> Seq<char> {
    match l {
        Language::English => lang::temp_allow_tooltip_spec(mins, until),
        Language::Korean => lang_ko::temp_allow_tooltip_spec(mins, until),
    }
}

/// Tray tooltip during a temporary allow.
pub fn temp_allow_tooltip(l: Language, mins: i64, until: &str) -> (s: String)
    ensures
        s@ == temp_allow_tooltip_spec(l, mins as int, until@),
{
    match l {
        Language::English => lang::temp_allow_tooltip(mins, until),
        Language::Korean => lang_ko::temp_allow_tooltip(mins, until),
    }
}

/// Viewer headline while the internet is available.
pub open spec fn viewer_available_spec(l: Language, day: Seq<char>, clock: Seq<char>, until: Seq<char>) -> Seq<char> {
    match l {
        Language::English => lang::viewer_available_spec(day, clock, until),
        Language::Korean => lang_ko::viewer_available_spec(day, clock, until),
    }
}

/// Viewer headline while the internet is available.
pub fn viewer_available(l: Language, day: &str, clock: &str, until: &str) -> (s: String)
    ensures
        s@ == viewer_available_spec(l, day@, clock@, until@),
{
    match l {
        Language::English => lang::viewer_available(day, clock, until),
        Language::Korean => lang_ko::viewer_available(day, clock, until),
    }
}

/// Viewer headline while the internet is blocked.
pub open spec fn viewer_blocked_spec(l: Language, day: Seq<char>, clock: Seq<char>, from: Seq<char>) -> Seq<char> {
    match l {
        Language::English => lang::viewer_blocked_spec(day, clock, from),
        Language::Korean => lang_ko::viewer_blocked_spec(day, clock, from),
    }
}

/// Viewer headline while the internet is blocked.
pub fn viewer_blocked(l: Language, day: &str, clock: &str, from: &str) -> (s: String)
    ensures
        s@ == viewer_blocked_spec(l, day@, clock@, from@),
{
    match l {
        Language::English => lang::viewer_blocked(day, clock, from),
        Language::Korean => lang_ko::viewer_blocked(day, clock, from),
    }
}

/// Viewer line with today's available ranges.
pub open spec fn viewer_today_ranges_spec(l: Language, ranges: Seq<char>) -> Seq<char> {
    match l {
        Language::English => lang::viewer_today_ranges_spec(ranges),
        Language::Korean => lang_ko::viewer_today_ranges_spec(ranges),
    }
}

/// Viewer line with today's available ranges.
pub fn viewer_today_ranges(l: Language, ranges: &str) -> (s: String)
    ensures
        s@ == viewer_today_ranges_spec(l, ranges@),
{
    match l {
        Language::English => lang::viewer_today_ranges(ranges),
        Language::Korean => lang_ko::viewer_today_ranges(ranges),
    }
}

/// Viewer headline naming today.
pub open spec fn viewer_today_title_spec(l: Language, date: Seq<char>, weekday: Seq<char>) -> Seq<char> {
    match l {
        Language::English => lang::viewer_today_title_spec(date, weekday),
        Language::Korean => lang_ko::viewer_today_title_spec(date, weekday),
    }
}

/// Viewer headline naming today.
pub fn viewer_today_title(l: Language, date: &str, weekday: &str) -> (s: String)
    ensures
        s@ == viewer_today_title_spec(l, date@, weekday@),
{
    match l {
        Language::English => lang::viewer_today_title(date, weekday),
        Language::Korean => lang_ko::viewer_today_title(date, weekday),
    }
}

/// Viewer line with tomorrow's available ranges.
pub open spec fn viewer_tomorrow_spec(l: Language, day: Seq<char>, ranges: Seq<char>) -> Seq<char> {
    match l {
        Language::English => lang::viewer_tomorrow_spec(day, ranges),
        Language::Korean => lang_ko::viewer_tomorrow_spec(day, ranges),
    }
}

/// Viewer line with tomorrow's available ranges.
pub fn viewer_tomorrow(l: Language, day: &str, ranges: &str) -> (s: String)
    ensures
        s@ == viewer_tomorrow_spec(l, day@, ranges@),
{
    match l {
        Language::English => lang::viewer_tomorrow(day, ranges),
        Language::Korean => lang_ko::viewer_tomorrow(day, ranges),
    }
}

} // verus!
