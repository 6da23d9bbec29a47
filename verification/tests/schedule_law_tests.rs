use chrono::{Datelike, Local, TimeZone, Timelike};
use kid_internet_lock::clock::Moment;
use kid_internet_lock::config::{AppConfig, DaySchedule};
use kid_internet_lock::schedule::allowed_ranges;
use kid_internet_lock::scheduler::AppState;
use kid_internet_lock::viewer::{blocked_grid, describe_day};
use kid_internet_lock::wallpaper::blocked_segments;
use kid_internet_lock::lang;

fn when(day_offset: u32, minute: u32) -> Moment {
    let dt = Local
        .with_ymd_and_hms(2026, 9, 14 + day_offset, minute / 60, minute % 60, 0)
        .unwrap();
    Moment {
        secs: dt.timestamp(),
        nanos: dt.timestamp_subsec_nanos(),
        month: dt.month(),
        day: dt.day(),
        weekday: dt.weekday().num_days_from_monday(),
        hour: dt.hour(),
        minute: dt.minute(),
    }
}

fn mixed_cfg() -> AppConfig {
    let mut cfg = AppConfig::default();
    cfg.weekly_schedule[1].enabled = false;
    cfg.weekly_schedule[2] = DaySchedule::from_window(23, 0, 6, 0);
    cfg.weekly_schedule[2].start2_hour = 12;
    cfg.weekly_schedule[2].end2_hour = 13;
    cfg.weekly_schedule[3].enabled = false;
    cfg.weekly_schedule[4] = DaySchedule::from_window(9, 0, 9, 0);
    cfg.weekly_schedule[5] = DaySchedule::from_window(20, 15, 21, 45);
    cfg.weekly_schedule[6].start2_hour = 22;
    cfg.weekly_schedule[6].start2_minute = 30;
    cfg.weekly_schedule[6].end2_hour = 1;
    cfg.weekly_schedule[6].end2_minute = 30;
    cfg
}

fn grid_from(blocked: &[(usize, usize)]) -> [bool; 1440] {
    let mut g = [false; 1440];
    for &(a, b) in blocked {
        for m in a..b {
            g[m] = true;
        }
    }
    g
}

#[test]
fn free_runs_are_maximal_and_cover_every_free_minute() {
    let grids = [
        grid_from(&[]),
        grid_from(&[(0, 1440)]),
        grid_from(&[(0, 1), (1439, 1440)]),
        grid_from(&[(10, 20), (20, 30), (100, 101), (700, 1000)]),
    ];
    for g in grids.iter() {
        let runs = allowed_ranges(g);
        let mut covered = [false; 1440];
        for (i, &(s, e)) in runs.iter().enumerate() {
            assert!(s < e && e <= 1440);
            assert!(s == 0 || g[s as usize - 1]);
            assert!(e == 1440 || g[e as usize]);
            if i > 0 {
                assert!(runs[i - 1].1 < s);
            }
            for m in s..e {
                assert!(!g[m as usize]);
                covered[m as usize] = true;
            }
        }
        for m in 0..1440 {
            assert_eq!(covered[m], !g[m]);
        }
    }
    assert_eq!(allowed_ranges(&grid_from(&[(10, 20), (20, 30)])), vec![(0, 10), (30, 1440)]);
}

#[test]
fn wallpaper_bars_are_the_viewer_grid() {
    let cfg = mixed_cfg();
    for d in 0..7 {
        let grid = blocked_grid(&cfg, d);
        let mut painted = [false; 1440];
        for (s, e) in blocked_segments(&cfg, d) {
            for m in s..e {
                painted[m as usize] = true;
            }
        }
        assert_eq!(painted, grid, "day {}", d);
    }
}

#[test]
fn viewer_grid_matches_scheduler_on_mixed_week() {
    let cfg = mixed_cfg();
    let state = AppState::new(cfg.clone());
    for d in 0..7u32 {
        let grid = blocked_grid(&cfg, d as usize);
        for m in (0..1440u32).step_by(5) {
            assert_eq!(grid[m as usize], state.is_time_in_schedule(when(d, m)), "day {} minute {}", d, m);
        }
    }
}

#[test]
fn crossing_slot_continues_into_next_morning() {
    let state = AppState::new(mixed_cfg());
    // Wednesday 23:00-06:00 covers Thursday (unchecked) until 06:00.
    assert!(state.is_time_in_schedule(when(2, 23 * 60)));
    assert!(state.is_time_in_schedule(when(3, 0)));
    assert!(state.is_time_in_schedule(when(3, 5 * 60 + 59)));
    assert!(!state.is_time_in_schedule(when(3, 6 * 60)));
    // Wednesday's own morning belongs to Tuesday, which has no block.
    assert!(!state.is_time_in_schedule(when(2, 3 * 60)));
}

#[test]
fn unchecked_day_without_spillover_is_open() {
    let cfg = mixed_cfg();
    assert_eq!(describe_day(&cfg, 1), lang::AVAILABLE_ALL_DAY);
    assert!(blocked_grid(&cfg, 1).iter().all(|b| !b));
}

#[test]
fn equal_start_and_end_is_no_block() {
    let cfg = mixed_cfg();
    // Friday 09:00-09:00 is unused: the day is open.
    assert!(cfg.weekly_schedule[4].slot1().is_none());
    assert!(cfg.weekly_schedule[4].active_slots().is_empty());
    assert_eq!(describe_day(&cfg, 4), lang::AVAILABLE_ALL_DAY);
}

#[test]
fn block_end_exists_exactly_when_blocked() {
    let state = AppState::new(mixed_cfg());
    for d in 0..7u32 {
        for m in (0..1440u32).step_by(3) {
            let now = when(d, m);
            assert_eq!(state.current_block_end(now).is_some(), state.is_time_in_schedule(now));
        }
    }
}

#[test]
fn next_block_is_the_earliest_start() {
    let cfg = mixed_cfg();
    let state = AppState::new(cfg.clone());
    for d in 0..7u32 {
        for m in (0..1440u32).step_by(11) {
            let got = state.next_block_start(when(d, m));
            // Brute force: the first (day ahead, start) in week order.
            let mut expected = None;
            'outer: for ahead in 0..8usize {
                let idx = (d as usize + ahead) % 7;
                let mut best: Option<(u32, usize)> = None;
                for (s, _, slot) in cfg.weekly_schedule[idx].active_slots() {
                    if ahead == 0 && s <= m {
                        continue;
                    }
                    if best.map_or(true, |b| s < b.0) {
                        best = Some((s, slot));
                    }
                }
                if let Some((s, slot)) = best {
                    expected = Some((idx, s / 60, s % 60, ahead, slot));
                    break 'outer;
                }
            }
            assert_eq!(got, expected, "day {} minute {}", d, m);
        }
    }
}

#[test]
fn equal_starts_pick_the_first_slot() {
    let mut cfg = AppConfig::default();
    for d in cfg.weekly_schedule.iter_mut() {
        d.enabled = false;
    }
    cfg.weekly_schedule[0] = DaySchedule::from_window(22, 0, 23, 0);
    cfg.weekly_schedule[0].start2_hour = 22;
    cfg.weekly_schedule[0].end2_hour = 22;
    cfg.weekly_schedule[0].end2_minute = 30;
    let state = AppState::new(cfg);
    assert_eq!(state.next_block_start(when(0, 600)), Some((0, 22, 0, 0, 0)));
}
