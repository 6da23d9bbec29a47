use kid_internet_lock::lang;

#[test]
fn weekday_names() {
    let short: Vec<&str> = (0..7).map(lang::weekday_short).collect();
    assert_eq!(short, vec!["Mon", "Tue", "Wed", "Thu", "Fri", "Sat", "Sun"]);
    let full: Vec<&str> = (0..7).map(lang::weekday_full).collect();
    assert_eq!(
        full,
        vec!["Monday", "Tuesday", "Wednesday", "Thursday", "Friday", "Saturday", "Sunday"]
    );
}

#[test]
fn status_templates() {
    assert_eq!(
        lang::blocked_summary("Mon", "00:00-07:00", "00:00-07:00, 22:00-23:00", "07:00"),
        "Internet blocked - Mon 00:00-07:00 (00:00-07:00, 22:00-23:00) (unblocks at 07:00)"
    );
    assert_eq!(
        lang::blocked_tooltip("Mon", "00:00-07:00", "07:00"),
        "Kid Internet Lock\nStatus: 🔴 Blocked (Mon 00:00-07:00)\nUnblocks at: 07:00"
    );
    assert_eq!(
        lang::allowed_summary("Monday", "none", "Wed", "12:00-13:00"),
        "Internet allowed - Monday (none) (next block Wed 12:00-13:00)"
    );
    assert_eq!(
        lang::allowed_tooltip("Monday", "Wed", "12:00-13:00"),
        "Kid Internet Lock\nStatus: 🟢 Allowed (Monday)\nNext block: Wed 12:00-13:00"
    );
    assert_eq!(lang::temp_allow_summary(-3), "Temporary allow active (about -3 min left)");
    assert_eq!(
        lang::temp_allow_tooltip(60, "08:15"),
        "Kid Internet Lock\nStatus: 🟢 Temporary allow active\nRemaining: about 60 min (until 08:15)"
    );
}

#[test]
fn dialog_templates() {
    assert_eq!(lang::auth_title("Exit"), "Exit - Admin Authentication");
    assert_eq!(lang::save_failed_msg("disk full"), "Save failed: disk full");
    assert_eq!(lang::batch_error("Slot 1"), "Batch Slot 1: please enter hours 00-23 and minutes 00-59.");
    assert_eq!(
        lang::weekly_error("Tuesday"),
        "Tuesday: please enter hours 00-23 and minutes 00-59. (Leave slot 2 as 00:00-00:00 when unused.)"
    );
    assert_eq!(lang::status_line("x"), "Current status: x");
    assert_eq!(lang::err_running("boom"), "An error occurred while running the application:\nboom");
}

#[test]
fn viewer_templates() {
    assert_eq!(
        lang::viewer_available("Tuesday", "21:30", "23:00"),
        "Tuesday 21:30  -  Available now (until 23:00)"
    );
    assert_eq!(
        lang::viewer_blocked("Tuesday", "23:30", "Wednesday 07:00"),
        "Tuesday 23:30  -  Blocked now (available from Wednesday 07:00)"
    );
    assert_eq!(lang::viewer_today_title("Sep 18", "Thursday"), "Today, Thursday Sep 18");
    assert_eq!(lang::viewer_today_ranges("07:00 - 24:00"), "Available today: 07:00 - 24:00");
    assert_eq!(lang::viewer_tomorrow("Friday", "Blocked all day"), "Tomorrow (Friday): Blocked all day");
}
