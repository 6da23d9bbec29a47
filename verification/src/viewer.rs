//! The kid-facing schedule viewer: blocked minutes of a day, the available
//! ranges as text, and the "available now / blocked now" headline.

use vstd::prelude::*;
use crate::clock::{Moment, local_now};
use crate::config::AppConfig;
use crate::texts::{self, Language};
use crate::schedule::{DAY_MINUTES, allowed_ranges, any_slot_blocks_today, any_slot_spills, blocked_at, free_runs, lemma_active_slots_block, schedule_grid};
use crate::scheduler::format_hm_spec;
use crate::text::{dec_nat, pad2, push_dec, push_pad2};
use crate::wallpaper::{describe_ranges_in, describe_ranges_spec, fmt_hm, fmt_hm_spec};

verus! {

/// Blocked minutes of a calendar day (Monday = 0 .. Sunday = 6), including
/// spillover from the previous day's crossing slots.
pub fn blocked_grid(cfg: &AppConfig, day_idx: usize) -> (grid: [bool; 1440])
    requires
        cfg.wf(),
        day_idx <= usize::MAX - 6,
    ensures
        grid@ == schedule_grid(*cfg, day_idx as int),
{
    proof {
        assert(cfg.weekly_schedule@[(day_idx % 7) as int].fits());
        assert(cfg.weekly_schedule@[((day_idx + 6) % 7) as int].fits());
    }
    let today = &cfg.weekly_schedule[day_idx % 7];
    let prev = &cfg.weekly_schedule[(day_idx + 6) % 7];
    let today_slots = today.active_slots();
    let prev_slots = prev.active_slots();
    let mut grid = [false; 1440];
    let mut m: u32 = 0;
    while m < DAY_MINUTES
        invariant
            m <= DAY_MINUTES,
            today.fits(),
            prev.fits(),
            *today == cfg.weekly_schedule@[(day_idx % 7) as int],
            *prev == cfg.weekly_schedule@[((day_idx + 6) % 7) as int],
            today_slots@ == today.spec_active_slots(),
            prev_slots@ == prev.spec_active_slots(),
            forall|k: int| 0 <= k < m ==> grid@[k] == blocked_at(*cfg, day_idx as int, k),
        decreases DAY_MINUTES - m,
    {
        let mut blocked = any_slot_blocks_today(&today_slots, m);
        if !blocked {
            blocked = any_slot_spills(&prev_slots, m);
        }
        proof {
            lemma_active_slots_block(*today, m as int);
            lemma_active_slots_block(*prev, m as int);
        }
        grid[m as usize] = blocked;
        m = m + 1;
    }
    proof {
        assert(grid@ =~= schedule_grid(*cfg, day_idx as int));
    }
    grid
}

/// The label of a weekday's available ranges (English).
pub fn describe_day(cfg: &AppConfig, day_idx: usize) -> (s: String)
    requires
        cfg.wf(),
        day_idx <= usize::MAX - 6,
    ensures
        s@ == describe_ranges_spec(Language::English, free_runs(schedule_grid(*cfg, day_idx as int))),
{
    describe_day_in(Language::English, cfg, day_idx)
}

/// The label of a weekday's available ranges in language `l`.
pub fn describe_day_in(l: Language, cfg: &AppConfig, day_idx: usize) -> (s: String)
    requires
        cfg.wf(),
        day_idx <= usize::MAX - 6,
    ensures
        s@ == describe_ranges_spec(l, free_runs(schedule_grid(*cfg, day_idx as int))),
{
    let grid = blocked_grid(cfg, day_idx);
    let ranges = allowed_ranges(&grid);
    describe_ranges_in(l, ranges.as_slice())
}

/// English three-letter month name (`%b`).
pub open spec fn month_abbr_spec(month: int) -> Seq<char> {
    if month == 1 { "Jan"@ }
    else if month == 2 { "Feb"@ }
    else if month == 3 { "Mar"@ }
    else if month == 4 { "Apr"@ }
    else if month == 5 { "May"@ }
    else if month == 6 { "Jun"@ }
    else if month == 7 { "Jul"@ }
    else if month == 8 { "Aug"@ }
    else if month == 9 { "Sep"@ }
    else if month == 10 { "Oct"@ }
    else if month == 11 { "Nov"@ }
    else { "Dec"@ }
}

fn month_abbr(month: u32) -> (s: &'static str)
    ensures
        s@ == month_abbr_spec(month as int),
{
    if month == 1 { "Jan" }
    else if month == 2 { "Feb" }
    else if month == 3 { "Mar" }
    else if month == 4 { "Apr" }
    else if month == 5 { "May" }
    else if month == 6 { "Jun" }
    else if month == 7 { "Jul" }
    else if month == 8 { "Aug" }
    else if month == 9 { "Sep" }
    else if month == 10 { "Oct" }
    else if month == 11 { "Nov" }
    else { "Dec" }
}

/// Today's date as `%b %d`, e.g. `Sep 18`.
pub fn today_date_str(now: Moment) -> (s: String)
    ensures
        s@ == month_abbr_spec(now.month as int) + " "@ + pad2(now.day as nat),
{
    let mut s = String::from_str(month_abbr(now.month));
    s.append(" ");
    push_pad2(&mut s, now.day as u64);
    s
}

/// Today's date in language `l`: `%b %d` (`Sep 18`) in English, `9월 18일`
/// in Korean.
pub open spec fn date_spec(l: Language, now: Moment) -> Seq<char> {
    match l {
        Language::English => month_abbr_spec(now.month as int) + " "@ + pad2(now.day as nat),
        Language::Korean => dec_nat(now.month as nat) + "월 "@ + dec_nat(now.day as nat) + "일"@,
    }
}

/// Today's date in language `l`.
pub fn date_text(l: Language, now: Moment) -> (s: String)
    ensures
        s@ == date_spec(l, now),
{
    match l {
        Language::English => today_date_str(now),
        Language::Korean => {
            let mut s = String::new();
            push_dec(&mut s, now.month as u64);
            s.append("월 ");
            push_dec(&mut s, now.day as u64);
            s.append("일");
            s
        },
    }
}

/// The big headline naming today, e.g. `Today, Thursday Sep 18`.
pub fn today_title_text(l: Language, now: Moment) -> (s: String)
    requires
        now.wf(),
    ensures
        s@ == texts::viewer_today_title_spec(l, date_spec(l, now), texts::weekday_full_spec(l, now.weekday as int)),
{
    let date = date_text(l, now);
    texts::viewer_today_title(l, date.as_str(), texts::weekday_full(l, now.weekday as usize))
}

/// Today's available ranges line.
pub fn today_ranges_text(l: Language, cfg: &AppConfig, now: Moment) -> (s: String)
    requires
        cfg.wf(),
        now.wf(),
    ensures
        s@ == texts::viewer_today_ranges_spec(l, describe_ranges_spec(l, free_runs(schedule_grid(*cfg, now.weekday as int)))),
{
    let d = describe_day_in(l, cfg, now.weekday as usize);
    texts::viewer_today_ranges(l, d.as_str())
}

/// Tomorrow's available ranges line.
pub fn tomorrow_text(l: Language, cfg: &AppConfig, now: Moment) -> (s: String)
    requires
        cfg.wf(),
        now.wf(),
    ensures
        s@ == texts::viewer_tomorrow_spec(
            l,
            texts::weekday_full_spec(l, (now.weekday + 1) % 7),
            describe_ranges_spec(l, free_runs(schedule_grid(*cfg, (now.weekday + 1) % 7))),
        ),
{
    let tm = (now.weekday as usize + 1) % 7;
    let d = describe_day_in(l, cfg, tm);
    texts::viewer_tomorrow(l, texts::weekday_full(l, tm), d.as_str())
}

/// A row of the weekly list: `> ` before today's row (four spaces before the
/// others), the weekday's name and its available ranges.
pub open spec fn week_row_spec(l: Language, cfg: AppConfig, day_idx: int, today: int) -> Seq<char> {
    (if day_idx == today { "> "@ } else { "    "@ }) + texts::weekday_full_spec(l, day_idx) + ": "@
        + describe_ranges_spec(l, free_runs(schedule_grid(cfg, day_idx)))
}

/// The weekly list's row for weekday `day_idx` when `today` is the current weekday.
pub fn week_row_text(l: Language, cfg: &AppConfig, day_idx: usize, today: usize) -> (s: String)
    requires
        cfg.wf(),
        day_idx < 7,
    ensures
        s@ == week_row_spec(l, *cfg, day_idx as int, today as int),
{
    let mut s = if day_idx == today { String::from_str("> ") } else { String::from_str("    ") };
    s.append(texts::weekday_full(l, day_idx));
    s.append(": ");
    let d = describe_day_in(l, cfg, day_idx);
    s.append(d.as_str());
    s
}

/// The first minute at or after `from` whose blocked state differs from `v`.
pub open spec fn change_from(grid: Seq<bool>, from: int, v: bool) -> Option<int>
    decreases grid.len() - from,
{
    if from < 0 || from >= grid.len() {
        None
    } else if grid[from] != v {
        Some(from)
    } else {
        change_from(grid, from + 1, v)
    }
}

/// The next change of the blocked state away from `v`, searching `da` to 7
/// days ahead of weekday `idx` (today from minute `cur + 1` on, other days
/// from midnight): (days ahead, minute).
pub open spec fn next_change(cfg: AppConfig, idx: int, cur: int, v: bool, da: nat) -> Option<(nat, int)>
    decreases 8 - da,
{
    if da >= 8 {
        None
    } else {
        let from = if da == 0 { cur + 1 } else { 0 };
        match change_from(schedule_grid(cfg, (idx + da) % 7), from, v) {
            Some(m) => Some((da, m)),
            None => next_change(cfg, idx, cur, v, da + 1),
        }
    }
}

/// Where a change happens: the time today, or the weekday and time.
pub open spec fn change_at_text(l: Language, idx: int, da: nat, m: int) -> Seq<char> {
    if da == 0 {
        fmt_hm_spec(m as nat)
    } else {
        texts::weekday_full_spec(l, (idx + da) % 7) + " "@ + fmt_hm_spec(m as nat)
    }
}

/// The viewer headline at `now`.
pub open spec fn current_status_spec(l: Language, cfg: AppConfig, now: Moment) -> Seq<char> {
    let idx = now.weekday as int;
    let cur = now.minute_of_day();
    let blocked_now = blocked_at(cfg, idx, cur);
    let clock = format_hm_spec(now.hour as nat, now.minute as nat);
    let day_name = texts::weekday_full_spec(l, idx);
    match next_change(cfg, idx, cur, blocked_now, 0) {
        Some((da, m)) => if blocked_now {
            texts::viewer_blocked_spec(l, day_name, clock, change_at_text(l, idx, da, m))
        } else {
            texts::viewer_available_spec(l, day_name, clock, change_at_text(l, idx, da, m))
        },
        None => if blocked_now { texts::viewer_all_week_blocked_spec(l)@ } else { texts::viewer_all_week_available_spec(l)@ },
    }
}

proof fn lemma_change_from_bounds(grid: Seq<bool>, from: int, v: bool)
    ensures
        change_from(grid, from, v) matches Some(m) ==> 0 <= m < grid.len() && m >= from,
    decreases grid.len() - from,
{
    if 0 <= from < grid.len() && grid[from] == v {
        lemma_change_from_bounds(grid, from + 1, v);
    }
}

proof fn lemma_next_change_bounds(cfg: AppConfig, idx: int, cur: int, v: bool, da: nat)
    ensures
        next_change(cfg, idx, cur, v, da) matches Some((d, m)) ==> d < 8 && 0 <= m < DAY_MINUTES,
    decreases 8 - da,
{
    if da < 8 {
        let from = if da == 0 { cur + 1 } else { 0 };
        lemma_change_from_bounds(schedule_grid(cfg, (idx + da) % 7), from, v);
        lemma_next_change_bounds(cfg, idx, cur, v, da + 1);
    }
}

/// The first minute at or after `from` whose blocked state differs from `v`.
fn find_change(grid: &[bool; 1440], from: usize, v: bool) -> (r: Option<u32>)
    ensures
        r matches Some(m) ==> change_from(grid@, from as int, v) == Some(m as int),
        r is None ==> change_from(grid@, from as int, v) is None,
{
    let mut m: usize = from;
    while m < 1440
        invariant
            from <= m,
            grid@.len() == 1440,
            change_from(grid@, from as int, v) == change_from(grid@, m as int, v),
        decreases 1440 - m,
    {
        if grid[m] != v {
            return Some(m as u32);
        }
        m = m + 1;
    }
    None
}

/// The next change of the blocked state away from `v` within a week,
/// given the grids of the seven days from today on.
fn first_change(grids: &Vec<[bool; 1440]>, cfg: &AppConfig, idx: usize, cur: u32, v: bool) -> (r: Option<(usize, u32)>)
    requires
        idx < 7,
        cur < DAY_MINUTES,
        grids@.len() == 7,
        forall|k: int| 0 <= k < 7 ==> (#[trigger] grids@[k])@ == schedule_grid(*cfg, (idx + k) % 7),
    ensures
        r matches Some((d, m)) ==> next_change(*cfg, idx as int, cur as int, v, 0) == Some((d as nat, m as int)),
        r is None ==> next_change(*cfg, idx as int, cur as int, v, 0) is None,
{
    let mut days_ahead: usize = 0;
    while days_ahead < 8
        invariant
            days_ahead <= 8,
            idx < 7,
            cur < DAY_MINUTES,
            grids@.len() == 7,
            forall|k: int| 0 <= k < 7 ==> (#[trigger] grids@[k])@ == schedule_grid(*cfg, (idx + k) % 7),
            next_change(*cfg, idx as int, cur as int, v, 0)
                == next_change(*cfg, idx as int, cur as int, v, days_ahead as nat),
        decreases 8 - days_ahead,
    {
        let grid = &grids[days_ahead % 7];
        proof {
            assert((idx + (days_ahead % 7) as int) % 7 == (idx + days_ahead) as int % 7);
        }
        let from: usize = if days_ahead == 0 { cur as usize + 1 } else { 0 };
        if let Some(m) = find_change(grid, from, v) {
            return Some((days_ahead, m));
        }
        days_ahead = days_ahead + 1;
    }
    None
}

/// The viewer headline at `now`, e.g. `Tuesday 21:30  -  Available now (until 23:00)`.
pub fn current_status_at(l: Language, cfg: &AppConfig, now: Moment) -> (s: String)
    requires
        cfg.wf(),
        now.wf(),
    ensures
        s@ == current_status_spec(l, *cfg, now),
{
    let idx = now.weekday as usize;
    let cur = now.hour * 60 + now.minute;
    let mut grids: Vec<[bool; 1440]> = Vec::new();
    let mut d: usize = 0;
    while d < 7
        invariant
            d <= 7,
            idx < 7,
            cfg.wf(),
            grids@.len() == d,
            forall|k: int| 0 <= k < d ==> (#[trigger] grids@[k])@ == schedule_grid(*cfg, (idx + k) % 7),
        decreases 7 - d,
    {
        let g = blocked_grid(cfg, (idx + d) % 7);
        grids.push(g);
        d = d + 1;
    }
    proof {
        assert(grids@[0]@ == schedule_grid(*cfg, idx as int));
        assert(schedule_grid(*cfg, idx as int)[cur as int] == blocked_at(*cfg, idx as int, cur as int));
    }
    let blocked_now = grids[0][cur as usize];
    let change = first_change(&grids, cfg, idx, cur, blocked_now);
    proof {
        lemma_next_change_bounds(*cfg, idx as int, cur as int, blocked_now, 0);
    }
    let mut clock = String::new();
    push_pad2(&mut clock, now.hour as u64);
    clock.append(":");
    push_pad2(&mut clock, now.minute as u64);
    proof { reveal_strlit(":"); }
    let day_name = texts::weekday_full(l, idx);
    match change {
        Some((da, m)) => {
            let at = if da == 0 {
                fmt_hm(m)
            } else {
                let mut a = String::from_str(texts::weekday_full(l, (idx + da) % 7));
                a.append(" ");
                let t = fmt_hm(m);
                a.append(t.as_str());
                a
            };
            if blocked_now {
                texts::viewer_blocked(l, day_name, clock.as_str(), at.as_str())
            } else {
                texts::viewer_available(l, day_name, clock.as_str(), at.as_str())
            }
        },
        None => if blocked_now {
            String::from_str(texts::viewer_all_week_blocked(l))
        } else {
            String::from_str(texts::viewer_all_week_available(l))
        },
    }
}

/// The viewer headline at the current local time, or `None` when the clock
/// cannot be read as a local moment.
pub fn current_status(l: Language, cfg: &AppConfig) -> (r: Option<String>)
    requires
        cfg.wf(),
    ensures
        r matches Some(s) ==> exists|now: Moment| now.wf() && s@ == current_status_spec(l, *cfg, now),
{
    match local_now() {
        Some(now) => Some(current_status_at(l, cfg, now)),
        None => None,
    }
}

} // verus!
