use kid_internet_lock::config::{AppConfig, DaySchedule};
use kid_internet_lock::wallpaper::{bar_x, range_span, allowed_ranges_for_day, blocked_segments, day_slots, describe_ranges, fmt_hm, rgb};

#[test]
fn clock_labels() {
    assert_eq!(fmt_hm(0), "00:00");
    assert_eq!(fmt_hm(65), "01:05");
    assert_eq!(fmt_hm(1439), "23:59");
    assert_eq!(fmt_hm(1440), "24:00");
    assert_eq!(fmt_hm(5000), "24:00");
}

#[test]
fn range_labels() {
    assert_eq!(describe_ranges(&[]), "Blocked all day");
    assert_eq!(describe_ranges(&[(0, 1440)]), "Available all day");
    assert_eq!(describe_ranges(&[(420, 1320), (1380, 1440)]), "07:00 - 22:00,  23:00 - 24:00");
    assert_eq!(describe_ranges(&[(0, 1439)]), "00:00 - 23:59");
}

#[test]
fn colors() {
    assert_eq!(rgb(1, 2, 3), 0x030201);
    assert_eq!(rgb(255, 190, 0), 0x00BEFF);
    assert_eq!(rgb(0, 0, 0), 0);
}

#[test]
fn bar_segments_of_a_week() {
    let mut cfg = AppConfig::default();
    cfg.weekly_schedule[1].enabled = false;
    cfg.weekly_schedule[2] = DaySchedule::from_window(23, 0, 6, 0);
    cfg.weekly_schedule[6].start2_hour = 22;
    cfg.weekly_schedule[6].start2_minute = 30;
    cfg.weekly_schedule[6].end2_hour = 1;
    cfg.weekly_schedule[6].end2_minute = 30;
    assert_eq!(blocked_segments(&cfg, 0), vec![(0, 420)]);
    assert_eq!(blocked_segments(&cfg, 1), vec![]);
    assert_eq!(blocked_segments(&cfg, 2), vec![(1380, 1440)]);
    assert_eq!(blocked_segments(&cfg, 3), vec![(0, 420)]);
    assert_eq!(blocked_segments(&cfg, 6), vec![(0, 420), (1350, 1440)]);
    assert_eq!(day_slots(&cfg, 6), vec![(0, 420), (1350, 90)]);
    assert_eq!(day_slots(&cfg, 8), day_slots(&cfg, 1));
    assert_eq!(
        allowed_ranges_for_day(&day_slots(&cfg, 3), &day_slots(&cfg, 2)),
        vec![(420, 1440)]
    );
}

#[test]
fn bar_coordinates() {
    assert_eq!(bar_x(24, 656, 0, 1440), 24);
    assert_eq!(bar_x(24, 656, 1440, 1440), 656);
    assert_eq!(bar_x(24, 656, 420, 1440), 24 + 632 * 420 / 1440);
    assert_eq!(bar_x(24, 656, 3, 24), 103);
    // A bar running right to left rounds toward zero, as `/` does.
    assert_eq!(bar_x(10, 0, 1, 3), 7);
    assert_eq!(range_span(0, 1440, 60, 5000), (60, 1440));
    assert_eq!(range_span(100, 100, 0, 10), (100, 100));
}
