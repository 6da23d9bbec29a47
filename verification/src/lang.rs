//! The texts of the user interface (English).

use vstd::prelude::*;
use crate::text::{dec_int, i64_to_string};

verus! {

/// Short name of weekday `i` (Monday = 0 .. Sunday = 6).
pub open spec fn weekday_short_spec(i: int) -> Seq<char> {
    if i == 0 {
        "Mon"@
    } else if i == 1 {
        "Tue"@
    } else if i == 2 {
        "Wed"@
    } else if i == 3 {
        "Thu"@
    } else if i == 4 {
        "Fri"@
    } else if i == 5 {
        "Sat"@
    } else {
        "Sun"@
    }
}

/// Short name of weekday `i` (Monday = 0 .. Sunday = 6); `i` must be below 7.
pub fn weekday_short(i: usize) -> (s: &'static str)
    requires
        i < 7,
    ensures
        s@ == weekday_short_spec(i as int),
{
    if i == 0 {
        "Mon"
    } else if i == 1 {
        "Tue"
    } else if i == 2 {
        "Wed"
    } else if i == 3 {
        "Thu"
    } else if i == 4 {
        "Fri"
    } else if i == 5 {
        "Sat"
    } else {
        "Sun"
    }
}

/// Full name of weekday `i` (Monday = 0 .. Sunday = 6).
pub open spec fn weekday_full_spec(i: int) -> Seq<char> {
    if i == 0 {
        "Monday"@
    } else if i == 1 {
        "Tuesday"@
    } else if i == 2 {
        "Wednesday"@
    } else if i == 3 {
        "Thursday"@
    } else if i == 4 {
        "Friday"@
    } else if i == 5 {
        "Saturday"@
    } else {
        "Sunday"@
    }
}

/// Full name of weekday `i` (Monday = 0 .. Sunday = 6); `i` must be below 7.
pub fn weekday_full(i: usize) -> (s: &'static str)
    requires
        i < 7,
    ensures
        s@ == weekday_full_spec(i as int),
{
    if i == 0 {
        "Monday"
    } else if i == 1 {
        "Tuesday"
    } else if i == 2 {
        "Wednesday"
    } else if i == 3 {
        "Thursday"
    } else if i == 4 {
        "Friday"
    } else if i == 5 {
        "Saturday"
    } else {
        "Sunday"
    }
}

pub const SLOTS_NONE: &'static str = "none";
pub const FIREWALL_FAIL_SUMMARY_SUFFIX: &'static str = " ⚠️ Failed to apply firewall rule";
pub const FIREWALL_FAIL_TOOLTIP_SUFFIX: &'static str = "\n⚠️ Failed to apply the firewall rule (check security policy/permissions)";
pub const ALLOWED_NONE_SUMMARY: &'static str = "Internet allowed (no weekday block scheduled)";
pub const ALLOWED_NONE_TOOLTIP: &'static str = "Kid Internet Lock\nStatus: 🟢 Allowed\nNo weekday block scheduled";
pub const MANUAL_BLOCKED_SUMMARY: &'static str = "Internet manually blocked";
pub const MANUAL_BLOCKED_TOOLTIP: &'static str = "Kid Internet Lock\nStatus: 🔴 Manually Blocked\n(Manual control active)";
pub const MANUAL_ALLOWED_SUMMARY: &'static str = "Internet manually allowed";
pub const MANUAL_ALLOWED_TOOLTIP: &'static str = "Kid Internet Lock\nStatus: 🟢 Manually Allowed\n(Manual control active)";
pub const TRAY_STATUS_BLOCKED: &'static str = "Kid Internet Lock [🔴 Internet Blocked]";
pub const TRAY_STATUS_ALLOWED: &'static str = "Kid Internet Lock [🟢 Internet Allowed]";
pub const BTN_ALLOW_30: &'static str = "Allow 30 Minutes";
pub const BTN_ALLOW_60: &'static str = "Allow 1 Hour";
pub const BTN_TEMP_CANCEL: &'static str = "Cancel Temporary Allow";
pub const BTN_TOGGLE: &'static str = "Block / Unblock Now";
pub const MENU_SETTINGS: &'static str = "Admin Settings (S)...";
pub const MENU_EXIT: &'static str = "Exit (X)";
pub const AUTH_TITLE_ADMIN: &'static str = "Kid Internet Lock - Admin Authentication";
pub const AUTH_TITLE_SETTINGS: &'static str = "Kid Internet Lock - Settings Authentication";
pub const AUTH_TITLE_EXIT: &'static str = "Kid Internet Lock - Exit Authentication";
pub const TITLE_SETTINGS: &'static str = "Kid Internet Lock - Admin Settings";
pub const GRP_SCHEDULE: &'static str = " 🕒 Block Schedule (by weekday, 2 slots) ";
pub const BATCH1_LABEL: &'static str = "Batch slot 1:";
pub const BATCH2_LABEL: &'static str = "Batch slot 2:";
pub const BTN_COPY_SLOT1: &'static str = "Copy slot 1 to all days";
pub const BTN_COPY_SLOT2: &'static str = "Copy slot 2 to all days";
pub const HDR_DAY: &'static str = "Day";
pub const HDR_SLOT1: &'static str = "Slot 1 block (start - end)";
pub const HDR_SLOT2: &'static str = "Slot 2 block (start - end, 00:00 - 00:00 when unused)";
pub const ROW_HINT: &'static str = "block";
pub const NOTE_SCHEDULE: &'static str = "Uncheck a day = allow all day / Start = end disables that slot / Crossing midnight continues into next morning";
pub const GRP_TEMP: &'static str = " ⚡ Temporary Allow & Manual Control ";
pub const GRP_PASSWORD: &'static str = " 🔑 Change Admin Password ";
pub const LBL_CURRENT_PWD: &'static str = "Current password:";
pub const LBL_NEW_PWD: &'static str = "New password:";
pub const LBL_CONFIRM_PWD: &'static str = "Confirm new password:";
pub const BTN_CHANGE_PWD: &'static str = "Change Password";
pub const PWD_ERR_CURRENT: &'static str = "The current password is incorrect.";
pub const PWD_ERR_EMPTY: &'static str = "Please enter a new password.";
pub const PWD_ERR_MISMATCH: &'static str = "The new password confirmation does not match.";
pub const PWD_OK: &'static str = "Password changed successfully.";
pub const GRP_STARTUP: &'static str = " ⚙️ Startup ";
pub const CHK_AUTOSTART: &'static str = "Run automatically in the background at Windows logon";
pub const BTN_SAVE: &'static str = "Save Settings";
pub const BTN_CLOSE: &'static str = "Close";
pub const TITLE_SAVED: &'static str = "Settings Saved";
pub const MSG_SAVED: &'static str = "Settings saved successfully.";
pub const TITLE_INPUT_ERROR: &'static str = "Input Error";
pub const SLOT1_NAME: &'static str = "Slot 1";
pub const SLOT2_NAME: &'static str = "Slot 2";
pub const PWD_PROMPT_LABEL: &'static str = "Enter the admin password:";
pub const PWD_INCORRECT: &'static str = "Incorrect password.";
pub const BTN_OK: &'static str = "OK";
pub const BTN_CANCEL: &'static str = "Cancel";
pub const TITLE_ADMIN_REQUIRED: &'static str = "Administrator Rights Required";
pub const MSG_ADMIN_REQUIRED: &'static str = "Kid Internet Lock needs administrator rights to control Windows Firewall.\nPlease choose 'Run as administrator'.";
pub const TITLE_NOTICE: &'static str = "Notice";
pub const MSG_ALREADY_RUNNING: &'static str = "Kid Internet Lock is already running.\nPlease check the tray icon in the bottom-right corner of the taskbar.";
pub const TITLE_ERROR: &'static str = "Error";
pub const VIEWER_TITLE: &'static str = "Internet Time - Weekly Schedule";
pub const VIEWER_GROUP: &'static str = " Internet available times ";
pub const AVAILABLE_ALL_DAY: &'static str = "Available all day";
pub const BLOCKED_ALL_DAY: &'static str = "Blocked all day";
pub const VIEWER_ALL_WEEK_AVAILABLE: &'static str = "Internet available all week";
pub const VIEWER_ALL_WEEK_BLOCKED: &'static str = "Internet blocked all week";
pub const VIEWER_LEGEND_AVAILABLE: &'static str = "Available";
pub const VIEWER_LEGEND_BLOCKED: &'static str = "Blocked";
pub const VIEWER_LEGEND_NOW: &'static str = "Now";
pub const VIEWER_NOTE: &'static str = "The times above are when the internet works. Everything else is blocked.";

/// Status summary while a scheduled block is active.
pub open spec fn blocked_summary_spec(src: Seq<char>, active: Seq<char>, all: Seq<char>, end: Seq<char>) -> Seq<char> {
    "Internet blocked - "@ + src + " "@ + active + " ("@ + all + ") (unblocks at "@ + end + ")"@
}

/// Status summary while a scheduled block is active.
pub fn blocked_summary(src: &str, active: &str, all: &str, end: &str) -> (s: String)
    ensures
        s@ == blocked_summary_spec(src@, active@, all@, end@),
{
    let mut s = String::new();
    s.append("Internet blocked - ");
    s.append(src);
    s.append(" ");
    s.append(active);
    s.append(" (");
    s.append(all);
    s.append(") (unblocks at ");
    s.append(end);
    s.append(")");
    s
}

/// Tray tooltip while a scheduled block is active.
pub open spec fn blocked_tooltip_spec(src: Seq<char>, all: Seq<char>, end: Seq<char>) -> Seq<char> {
    "Kid Internet Lock\nStatus: 🔴 Blocked ("@ + src + " "@ + all + ")\nUnblocks at: "@ + end
}

/// Tray tooltip while a scheduled block is active.
pub fn blocked_tooltip(src: &str, all: &str, end: &str) -> (s: String)
    ensures
        s@ == blocked_tooltip_spec(src@, all@, end@),
{
    let mut s = String::new();
    s.append("Kid Internet Lock\nStatus: 🔴 Blocked (");
    s.append(src);
    s.append(" ");
    s.append(all);
    s.append(")\nUnblocks at: ");
    s.append(end);
    s
}

/// Status summary while allowed, with the next scheduled block.
pub open spec fn allowed_summary_spec(today: Seq<char>, today_slots: Seq<char>, next: Seq<char>, next_slots: Seq<char>) -> Seq<char> {
    "Internet allowed - "@ + today + " ("@ + today_slots + ") (next block "@ + next + " "@ + next_slots + ")"@
}

/// Status summary while allowed, with the next scheduled block.
pub fn allowed_summary(today: &str, today_slots: &str, next: &str, next_slots: &str) -> (s: String)
    ensures
        s@ == allowed_summary_spec(today@, today_slots@, next@, next_slots@),
{
    let mut s = String::new();
    s.append("Internet allowed - ");
    s.append(today);
    s.append(" (");
    s.append(today_slots);
    s.append(") (next block ");
    s.append(next);
    s.append(" ");
    s.append(next_slots);
    s.append(")");
    s
}

/// Tray tooltip while allowed, with the next scheduled block.
pub open spec fn allowed_tooltip_spec(today: Seq<char>, next: Seq<char>, next_slots: Seq<char>) -> Seq<char> {
    "Kid Internet Lock\nStatus: 🟢 Allowed ("@ + today + ")\nNext block: "@ + next + " "@ + next_slots
}

/// Tray tooltip while allowed, with the next scheduled block.
pub fn allowed_tooltip(today: &str, next: &str, next_slots: &str) -> (s: String)
    ensures
        s@ == allowed_tooltip_spec(today@, next@, next_slots@),
{
    let mut s = String::new();
    s.append("Kid Internet Lock\nStatus: 🟢 Allowed (");
    s.append(today);
    s.append(")\nNext block: ");
    s.append(next);
    s.append(" ");
    s.append(next_slots);
    s
}

/// Status summary during a temporary allow.
pub open spec fn temp_allow_summary_spec(mins: int) -> Seq<char> {
    "Temporary allow active (about "@ + dec_int(mins) + " min left)"@
}

/// Status summary during a temporary allow.
pub fn temp_allow_summary(mins: i64) -> (s: String)
    ensures
        s@ == temp_allow_summary_spec(mins as int),
{
    let mut s = String::new();
    s.append("Temporary allow active (about ");
    let t = i64_to_string(mins);
    s.append(t.as_str());
    s.append(" min left)");
    s
}

/// Tray tooltip during a temporary allow.
pub open spec fn temp_allow_tooltip_spec(mins: int, until: Seq<char>) -> Seq<char> {
    "Kid Internet Lock\nStatus: 🟢 Temporary allow active\nRemaining: about "@ + dec_int(mins) + " min (until "@ + until + ")"@
}

/// Tray tooltip during a temporary allow.
pub fn temp_allow_tooltip(mins: i64, until: &str) -> (s: String)
    ensures
        s@ == temp_allow_tooltip_spec(mins as int, until@),
{
    let mut s = String::new();
    s.append("Kid Internet Lock\nStatus: 🟢 Temporary allow active\nRemaining: about ");
    let t = i64_to_string(mins);
    s.append(t.as_str());
    s.append(" min (until ");
    s.append(until);
    s.append(")");
    s
}

/// Title of the password prompt for an action.
pub open spec fn auth_title_spec(action: Seq<char>) -> Seq<char> {
    action + " - Admin Authentication"@
}

/// Title of the password prompt for an action.
pub fn auth_title(action: &str) -> (s: String)
    ensures
        s@ == auth_title_spec(action@),
{
    let mut s = String::new();
    s.append(action);
    s.append(" - Admin Authentication");
    s
}

/// Message when saving the configuration failed.
pub open spec fn save_failed_msg_spec(detail: Seq<char>) -> Seq<char> {
    "Save failed: "@ + detail
}

/// Message when saving the configuration failed.
pub fn save_failed_msg(detail: &str) -> (s: String)
    ensures
        s@ == save_failed_msg_spec(detail@),
{
    let mut s = String::new();
    s.append("Save failed: ");
    s.append(detail);
    s
}

/// Input error of a batch slot row.
pub open spec fn batch_error_spec(slot: Seq<char>) -> Seq<char> {
    "Batch "@ + slot + ": please enter hours 00-23 and minutes 00-59."@
}

/// Input error of a batch slot row.
pub fn batch_error(slot: &str) -> (s: String)
    ensures
        s@ == batch_error_spec(slot@),
{
    let mut s = String::new();
    s.append("Batch ");
    s.append(slot);
    s.append(": please enter hours 00-23 and minutes 00-59.");
    s
}

/// Input error of a weekday row.
pub open spec fn weekly_error_spec(day: Seq<char>) -> Seq<char> {
    day + ": please enter hours 00-23 and minutes 00-59. (Leave slot 2 as 00:00-00:00 when unused.)"@
}

/// Input error of a weekday row.
pub fn weekly_error(day: &str) -> (s: String)
    ensures
        s@ == weekly_error_spec(day@),
{
    let mut s = String::new();
    s.append(day);
    s.append(": please enter hours 00-23 and minutes 00-59. (Leave slot 2 as 00:00-00:00 when unused.)");
    s
}

/// Status line of the settings window.
pub open spec fn status_line_spec(summary: Seq<char>) -> Seq<char> {
    "Current status: "@ + summary
}

/// Status line of the settings window.
pub fn status_line(summary: &str) -> (s: String)
    ensures
        s@ == status_line_spec(summary@),
{
    let mut s = String::new();
    s.append("Current status: ");
    s.append(summary);
    s
}

/// Message when the application stopped with an error.
pub open spec fn err_running_spec(detail: Seq<char>) -> Seq<char> {
    "An error occurred while running the application:\n"@ + detail
}

/// Message when the application stopped with an error.
pub fn err_running(detail: &str) -> (s: String)
    ensures
        s@ == err_running_spec(detail@),
{
    let mut s = String::new();
    s.append("An error occurred while running the application:\n");
    s.append(detail);
    s
}

/// Viewer headline while the internet is available.
pub open spec fn viewer_available_spec(day: Seq<char>, clock: Seq<char>, until: Seq<char>) -> Seq<char> {
    day + " "@ + clock + "  -  Available now (until "@ + until + ")"@
}

/// Viewer headline while the internet is available.
pub fn viewer_available(day: &str, clock: &str, until: &str) -> (s: String)
    ensures
        s@ == viewer_available_spec(day@, clock@, until@),
{
    let mut s = String::new();
    s.append(day);
    s.append(" ");
    s.append(clock);
    s.append("  -  Available now (until ");
    s.append(until);
    s.append(")");
    s
}

/// Viewer headline while the internet is blocked.
pub open spec fn viewer_blocked_spec(day: Seq<char>, clock: Seq<char>, from: Seq<char>) -> Seq<char> {
    day + " "@ + clock + "  -  Blocked now (available from "@ + from + ")"@
}

/// Viewer headline while the internet is blocked.
pub fn viewer_blocked(day: &str, clock: &str, from: &str) -> (s: String)
    ensures
        s@ == viewer_blocked_spec(day@, clock@, from@),
{
    let mut s = String::new();
    s.append(day);
    s.append(" ");
    s.append(clock);
    s.append("  -  Blocked now (available from ");
    s.append(from);
    s.append(")");
    s
}

/// Viewer headline naming today.
pub open spec fn viewer_today_title_spec(date: Seq<char>, weekday: Seq<char>) -> Seq<char> {
    "Today, "@ + weekday + " "@ + date
}

/// Viewer headline naming today.
pub fn viewer_today_title(date: &str, weekday: &str) -> (s: String)
    ensures
        s@ == viewer_today_title_spec(date@, weekday@),
{
    let mut s = String::new();
    s.append("Today, ");
    s.append(weekday);
    s.append(" ");
    s.append(date);
    s
}

/// Viewer line with today's available ranges.
pub open spec fn viewer_today_ranges_spec(ranges: Seq<char>) -> Seq<char> {
    "Available today: "@ + ranges
}

/// Viewer line with today's available ranges.
pub fn viewer_today_ranges(ranges: &str) -> (s: String)
    ensures
        s@ == viewer_today_ranges_spec(ranges@),
{
    let mut s = String::new();
    s.append("Available today: ");
    s.append(ranges);
    s
}

/// Viewer line with tomorrow's available ranges.
pub open spec fn viewer_tomorrow_spec(day: Seq<char>, ranges: Seq<char>) -> Seq<char> {
    "Tomorrow ("@ + day + "): "@ + ranges
}

/// Viewer line with tomorrow's available ranges.
pub fn viewer_tomorrow(day: &str, ranges: &str) -> (s: String)
    ensures
        s@ == viewer_tomorrow_spec(day@, ranges@),
{
    let mut s = String::new();
    s.append("Tomorrow (");
    s.append(day);
    s.append("): ");
    s.append(ranges);
    s
}

} // verus!
