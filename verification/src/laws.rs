//! Properties of the library as a whole, proved over the specifications that
//! the functions' contracts use.

use vstd::prelude::*;
use crate::config::{AppConfig, DaySchedule};
use crate::clock::Moment;
use crate::texts::Language;
use crate::password::{lemma_hex_len, password_hash_spec, salt_spec, sha256_spec};
use crate::schedule::{
    blocked_at, covers_spill, covers_today, day_blocks_today, day_pairs, day_spills, free_runs,
    lemma_pairs_match_schedule, lemma_run_end_bounds, maximal_free_runs, pairs_grid, run_end,
    runs_from, schedule_grid,
};
use crate::settings::{day_fields_spec, parse_day_spec, parse_hm_spec};
use crate::text::lemma_parse_pad2;
use crate::viewer::{change_from, month_abbr_spec, next_change};
use crate::scheduler::{
    block_source_spec, candidates_of, current_block_end_spec, describe_spec, desired_status, first_spill_from,
    first_today_from, format_day_slots_spec, lemma_active_slots_members, lemma_block_source, lemma_first_spill_from,
    lemma_first_today_from, lex_le, min_candidate, next_block_from, format_hm_spec, format_slot_spec,
};
use crate::texts;
use crate::tasks::{guard_task_xml_spec, guard_trigger_spec, guard_triggers_spec, text_escape_spec};

verus! {

proof fn lemma_run_end_free(g: Seq<bool>, m: nat)
    requires
        m <= g.len(),
    ensures
        forall|k: int| m <= k < run_end(g, m) ==> !g[k],
        run_end(g, m) == g.len() || g[run_end(g, m) as int],
    decreases g.len() - m,
{
    lemma_run_end_bounds(g, m);
    if m < g.len() && !g[m as int] {
        lemma_run_end_free(g, m + 1);
    }
}

proof fn lemma_runs_from_maximal(g: Seq<bool>, m: nat)
    requires
        m <= g.len(),
        g.len() <= u32::MAX,
        m == 0 || m == g.len() || g[m - 1] || g[m as int],
    ensures
        ({
            let r = runs_from(g, m);
            &&& forall|i: int| 0 <= i < r.len() ==> m <= (#[trigger] r[i]).0 && r[i].0 < r[i].1 && r[i].1 <= g.len()
            &&& forall|i: int, k: int| 0 <= i < r.len() && (#[trigger] r[i]).0 <= k < r[i].1 ==> !(#[trigger] g[k])
            &&& forall|i: int| 0 <= i < r.len() ==> (#[trigger] r[i]).0 == 0 || g[r[i].0 - 1]
            &&& forall|i: int| 0 <= i < r.len() ==> (#[trigger] r[i]).1 == g.len() || g[r[i].1 as int]
            &&& forall|i: int, j: int| 0 <= i < j < r.len() ==> (#[trigger] r[i]).1 < (#[trigger] r[j]).0
            &&& forall|k: int| m <= k < g.len() && !(#[trigger] g[k]) ==> exists|i: int| 0 <= i < r.len() && (#[trigger] r[i]).0 <= k < r[i].1
        }),
    decreases g.len() - m,
{
    let r = runs_from(g, m);
    if m >= g.len() {
    } else if g[m as int] {
        lemma_runs_from_maximal(g, m + 1);
        assert forall|k: int| m <= k < g.len() && !(#[trigger] g[k]) implies exists|i: int| 0 <= i < r.len() && (#[trigger] r[i]).0 <= k < r[i].1 by {
            assert(k != m);
        }
    } else {
        let e = run_end(g, m + 1);
        lemma_run_end_bounds(g, m + 1);
        lemma_run_end_free(g, m + 1);
        lemma_runs_from_maximal(g, e);
        let rest = runs_from(g, e);
        let first = (m as u32, e as u32);
        assert(r == seq![first] + rest);
        assert(r[0] == first);
        assert forall|i: int| 0 < i < r.len() implies #[trigger] r[i] == rest[i - 1] by {}
        assert forall|i: int, k: int| 0 <= i < r.len() && (#[trigger] r[i]).0 <= k < r[i].1 implies !(#[trigger] g[k]) by {
            if i > 0 {
                assert(r[i] == rest[i - 1]);
            }
        }
        assert forall|i: int, j: int| 0 <= i < j < r.len() implies (#[trigger] r[i]).1 < (#[trigger] r[j]).0 by {
            assert(r[j] == rest[j - 1]);
            if i == 0 {
                let s = rest[j - 1].0;
                assert(!g[s as int]);
                assert(s >= e);
            } else {
                assert(r[i] == rest[i - 1]);
            }
        }
        assert forall|k: int| m <= k < g.len() && !(#[trigger] g[k]) implies exists|i: int| 0 <= i < r.len() && (#[trigger] r[i]).0 <= k < r[i].1 by {
            if k < e {
                assert(r[0].0 <= k < r[0].1);
            } else {
                let i = choose|i: int| 0 <= i < rest.len() && (#[trigger] rest[i]).0 <= k < rest[i].1;
                assert(r[i + 1] == rest[i]);
            }
        }
        assert forall|i: int| 0 <= i < r.len() implies (#[trigger] r[i]).0 == 0 || g[r[i].0 - 1] by {
            if i > 0 {
                assert(r[i] == rest[i - 1]);
            }
        }
        assert forall|i: int| 0 <= i < r.len() implies (#[trigger] r[i]).1 == g.len() || g[r[i].1 as int] by {
            if i > 0 {
                assert(r[i] == rest[i - 1]);
            }
        }
        assert forall|i: int| 0 <= i < r.len() implies m <= (#[trigger] r[i]).0 && r[i].0 < r[i].1 && r[i].1 <= g.len() by {
            if i > 0 {
                assert(r[i] == rest[i - 1]);
            }
        }
    }
}

/// The available ranges are exactly the maximal runs of unblocked minutes:
/// each non-empty and unblocked throughout, bounded by blocked minutes or the
/// ends of the day, in order and apart, and every unblocked minute is in one.
pub proof fn law_free_runs_are_maximal(grid: Seq<bool>)
    requires
        grid.len() <= u32::MAX,
    ensures
        maximal_free_runs(grid, free_runs(grid)),
{
    lemma_runs_from_maximal(grid, 0);
}


/// The kid viewer's grid and the scheduler agree: minute `m` of weekday `d`
/// is shown blocked exactly when the scheduler blocks it.
pub proof fn law_viewer_matches_scheduler(cfg: AppConfig, d: int, m: int)
    requires
        0 <= m < 1440,
    ensures
        schedule_grid(cfg, d)[m] == blocked_at(cfg, d, m),
{
}

/// The wallpaper's ranges (from raw slot pairs) and the viewer's ranges
/// (from the schedule grid) of a weekday are the same.
pub proof fn law_wallpaper_matches_viewer(cfg: AppConfig, d: int)
    requires
        cfg.wf(),
        0 <= d,
    ensures
        free_runs(pairs_grid(day_pairs(cfg.weekly_schedule@[d % 7]), day_pairs(cfg.weekly_schedule@[(d + 6) % 7])))
            == free_runs(schedule_grid(cfg, d)),
{
    lemma_pairs_match_schedule(cfg, d);
}

/// A slot that crosses midnight blocks its own day from its start to the end
/// of the day, and the next morning until its end, even when the next day
/// is unchecked.
pub proof fn law_crossing_slot_spills(cfg: AppConfig, d: int, slot: int)
    requires
        0 <= d < 7,
        cfg.weekly_schedule@[d].spec_slot(slot) matches Some((s, e)) && s > e,
    ensures
        ({
            let (s, e) = cfg.weekly_schedule@[d].spec_slot(slot).unwrap();
            &&& forall|m: int| s <= m < 1440 ==> #[trigger] blocked_at(cfg, d, m)
            &&& forall|m: int| 0 <= m < e ==> #[trigger] blocked_at(cfg, d + 1, m)
        }),
{
    let (s, e) = cfg.weekly_schedule@[d].spec_slot(slot).unwrap();
    assert(d % 7 == d);
    assert((d + 1 + 6) % 7 == d);
    assert forall|m: int| s <= m < 1440 implies #[trigger] blocked_at(cfg, d, m) by {
        assert(covers_today(s as int, e as int, m));
    }
    assert forall|m: int| 0 <= m < e implies #[trigger] blocked_at(cfg, d + 1, m) by {
        assert(covers_spill(s as int, e as int, m));
    }
}

/// An unchecked day is allowed all day, except for the previous day's
/// crossing slot spilling into its morning.
pub proof fn law_unchecked_day_allowed(cfg: AppConfig, d: int, m: int)
    requires
        0 <= d < 7,
        !cfg.weekly_schedule@[d].enabled,
    ensures
        blocked_at(cfg, d, m) == day_spills(cfg.weekly_schedule@[(d + 6) % 7], m),
{
    assert(d % 7 == d);
}

/// A slot whose start equals its end is unused: it is never active.
pub proof fn law_equal_start_end_unused(day: DaySchedule, slot: int)
    requires
        day.slot_bounds(slot).0 == day.slot_bounds(slot).1,
    ensures
        day.spec_slot(slot) is None,
{
}

/// The current block has an end exactly when the current minute is blocked.
pub proof fn law_block_end_iff_blocked(cfg: AppConfig, wd: int, cur: int)
    requires
        cfg.wf(),
        0 <= wd,
    ensures
        current_block_end_spec(cfg, wd, cur) is Some <==> blocked_at(cfg, wd, cur),
{
    lemma_block_source(cfg, wd, cur);
}

/// A manual override decides alone; otherwise a running temporary allow
/// unblocks; otherwise the schedule decides.
pub proof fn law_override_precedence(l: Language, cfg: AppConfig, manual: Option<bool>, temp: Option<Moment>, now: Moment)
    ensures
        desired_status(l, cfg, manual, temp, now).0 == match manual {
            Some(b) => b,
            None => temp is None && blocked_at(cfg, now.weekday as int, now.minute_of_day()),
        },
{
}

/// Saving the settings window unchanged keeps every weekday: each time is
/// shown as two digits, and reading the fields back gives the same day, for
/// every day whose hours are at most 23 and minutes at most 59.
pub proof fn law_settings_fields_round_trip(d: DaySchedule)
    requires
        d.start_hour <= 23 && d.start_minute <= 59,
        d.end_hour <= 23 && d.end_minute <= 59,
        d.start2_hour <= 23 && d.start2_minute <= 59,
        d.end2_hour <= 23 && d.end2_minute <= 59,
    ensures
        parse_day_spec(d.enabled, day_fields_spec(d)) == Some(d),
{
    lemma_parse_pad2(d.start_hour as nat);
    lemma_parse_pad2(d.start_minute as nat);
    lemma_parse_pad2(d.end_hour as nat);
    lemma_parse_pad2(d.end_minute as nat);
    lemma_parse_pad2(d.start2_hour as nat);
    lemma_parse_pad2(d.start2_minute as nat);
    lemma_parse_pad2(d.end2_hour as nat);
    lemma_parse_pad2(d.end2_minute as nat);
    let f = day_fields_spec(d);
    assert(parse_hm_spec(f[0], f[1]) == Some((d.start_hour, d.start_minute)));
    assert(parse_hm_spec(f[2], f[3]) == Some((d.end_hour, d.end_minute)));
    assert(parse_hm_spec(f[4], f[5]) == Some((d.start2_hour, d.start2_minute)));
    assert(parse_hm_spec(f[6], f[7]) == Some((d.end2_hour, d.end2_minute)));
}

/// After `update_password(p)` the new password is accepted by
/// `verify_password`, and the schedule and the autostart choice are kept.
pub proof fn law_verify_after_update(before: AppConfig, after: AppConfig, p: Seq<char>, pid: u32)
    requires
        after.password_replaced(before, p, pid),
    ensures
        after.password_matches(p),
        after.weekly_schedule == before.weekly_schedule,
        after.auto_start == before.auto_start,
{
}

/// A stored hash has two hex digits per digest byte, and a salt has two
/// hex digits for each of the 16 digest bytes it keeps.
pub proof fn law_hash_and_salt_lengths(password: Seq<char>, salt: Seq<char>, nanos: nat, pid: nat)
    ensures
        password_hash_spec(password, salt).len()
            == 2 * sha256_spec(vstd::utf8::encode_utf8(salt) + vstd::utf8::encode_utf8(password)).len(),
        sha256_spec(crate::password::le_bytes(nanos, 16) + crate::password::le_bytes(pid, 4)).len() >= 16
            ==> salt_spec(nanos, pid).len() == 32,
{
    lemma_hex_len(sha256_spec(vstd::utf8::encode_utf8(salt) + vstd::utf8::encode_utf8(password)));
    let d = sha256_spec(crate::password::le_bytes(nanos, 16) + crate::password::le_bytes(pid, 4));
    lemma_hex_len(d.take(16));
}


/// Slot `k` of `day` may be the next block: it is in use and, on the first
/// day searched, starts after `cur`.
pub open spec fn upcoming_slot(day: DaySchedule, k: int, cur: int, days_ahead: int) -> bool {
    day.spec_slot(k) is Some && (days_ahead != 0 || cur < day.slot_bounds(k).0)
}

proof fn lemma_candidates_member(slots: Seq<(u32, u32, usize)>, cur: int, first_day: bool)
    ensures
        forall|x: (u32, usize)| #[trigger] candidates_of(slots, cur, first_day).contains(x) <==>
            exists|i: int| 0 <= i < slots.len() && (#[trigger] slots[i]).0 == x.0 && slots[i].2 == x.1
                && (!first_day || cur < slots[i].0),
    decreases slots.len(),
{
    if slots.len() > 0 {
        let init = slots.drop_last();
        lemma_candidates_member(init, cur, first_day);
        let c0 = candidates_of(init, cur, first_day);
        let t = slots.last();
        assert forall|x: (u32, usize)| #[trigger] candidates_of(slots, cur, first_day).contains(x) <==>
            exists|i: int| 0 <= i < slots.len() && (#[trigger] slots[i]).0 == x.0 && slots[i].2 == x.1
                && (!first_day || cur < slots[i].0) by {
            if candidates_of(slots, cur, first_day).contains(x) {
                if c0.contains(x) {
                    let i = choose|i: int| 0 <= i < init.len() && (#[trigger] init[i]).0 == x.0 && init[i].2 == x.1
                        && (!first_day || cur < init[i].0);
                    assert(slots[i] == init[i]);
                } else {
                    assert(slots[slots.len() - 1] == t);
                }
            }
            if exists|i: int| 0 <= i < slots.len() && (#[trigger] slots[i]).0 == x.0 && slots[i].2 == x.1
                && (!first_day || cur < slots[i].0) {
                let i = choose|i: int| 0 <= i < slots.len() && (#[trigger] slots[i]).0 == x.0 && slots[i].2 == x.1
                    && (!first_day || cur < slots[i].0);
                if i < slots.len() - 1 {
                    assert(init[i] == slots[i]);
                    assert(c0.contains(x));
                    let j = choose|j: int| 0 <= j < c0.len() && c0[j] == x;
                    if !first_day || cur < t.0 {
                        assert(c0.push((t.0, t.2))[j] == x);
                    }
                } else {
                    assert(x == (t.0, t.2));
                    assert(c0.push((t.0, t.2))[c0.len() as int] == x);
                }
            }
        }
    }
}

proof fn lemma_min_candidate(c: Seq<(u32, usize)>)
    requires
        c.len() > 0,
    ensures
        c.contains(min_candidate(c)),
        forall|i: int| 0 <= i < c.len() ==> lex_le(min_candidate(c), #[trigger] c[i]),
    decreases c.len(),
{
    if c.len() > 1 {
        let init = c.drop_last();
        lemma_min_candidate(init);
        let m = min_candidate(init);
        let j = choose|j: int| 0 <= j < init.len() && init[j] == m;
        assert(c[j] == m);
        assert forall|i: int| 0 <= i < c.len() implies lex_le(min_candidate(c), #[trigger] c[i]) by {
            if i < c.len() - 1 {
                assert(c[i] == init[i]);
            }
        }
    } else {
        assert(c[0] == min_candidate(c));
    }
}

proof fn lemma_day_candidates(day: DaySchedule, cur: int, da: int)
    ensures
        ({
            let first = da == 0;
            forall|x: (u32, usize)| #[trigger] candidates_of(day.spec_active_slots(), cur, first).contains(x) <==>
                (x.1 < 2 && upcoming_slot(day, x.1 as int, cur, da) && x.0 == day.slot_bounds(x.1 as int).0)
        }),
{
    let first = da == 0;
    let sl = day.spec_active_slots();
    lemma_candidates_member(sl, cur, first);
    lemma_active_slots_members(day);
    assert forall|x: (u32, usize)| #[trigger] candidates_of(sl, cur, first).contains(x) <==>
        (x.1 < 2 && upcoming_slot(day, x.1 as int, cur, da) && x.0 == day.slot_bounds(x.1 as int).0) by {
        if x.1 < 2 && upcoming_slot(day, x.1 as int, cur, da) && x.0 == day.slot_bounds(x.1 as int).0 {
            let k: int = if x.1 == 1 && day.spec_slot(0) is Some { 1 } else { 0 };
            assert(sl[k].0 == x.0 && sl[k].2 == x.1);
        }
        if candidates_of(sl, cur, first).contains(x) {
            let i = choose|i: int| 0 <= i < sl.len() && (#[trigger] sl[i]).0 == x.0 && sl[i].2 == x.1
                && (!first || cur < sl[i].0);
            assert(sl.contains(sl[i]));
        }
    }
}

proof fn lemma_next_block_from(cfg: AppConfig, idx: int, cur: int, da: nat)
    requires
        0 <= idx,
    ensures
        match next_block_from(cfg, idx, cur, da) {
            Some((di, sh, sm, d, slot)) => {
                let day = cfg.weekly_schedule@[(idx + d) % 7];
                &&& da <= d < 8
                &&& di == (idx + d) % 7
                &&& slot < 2
                &&& upcoming_slot(day, slot as int, cur, d as int)
                &&& (sh, sm) == day.spec_slot_start_hm(slot as int)
                &&& forall|k: int| 0 <= k < 2 && #[trigger] upcoming_slot(day, k, cur, d as int)
                    ==> day.slot_bounds(slot as int).0 < day.slot_bounds(k).0
                    || (day.slot_bounds(slot as int).0 == day.slot_bounds(k).0 && slot <= k)
                &&& forall|d2: int, k: int| da <= d2 < d && 0 <= k < 2
                    ==> !#[trigger] upcoming_slot(cfg.weekly_schedule@[(idx + d2) % 7], k, cur, d2)
            },
            None => forall|d2: int, k: int| da <= d2 < 8 && 0 <= k < 2
                ==> !#[trigger] upcoming_slot(cfg.weekly_schedule@[(idx + d2) % 7], k, cur, d2),
        },
    decreases 8 - da,
{
    if da < 8 {
        let di = (idx + da) % 7;
        let day = cfg.weekly_schedule@[di];
        let c = candidates_of(day.spec_active_slots(), cur, da == 0);
        lemma_day_candidates(day, cur, da as int);
        if c.len() == 0 {
            lemma_next_block_from(cfg, idx, cur, da + 1);
            assert forall|k: int| 0 <= k < 2 implies !#[trigger] upcoming_slot(day, k, cur, da as int) by {
                if upcoming_slot(day, k, cur, da as int) {
                    assert(c.contains((day.slot_bounds(k).0, k as usize)));
                }
            }
        } else {
            lemma_min_candidate(c);
            let mc = min_candidate(c);
            assert(c.contains(mc));
            assert forall|k: int| 0 <= k < 2 && #[trigger] upcoming_slot(day, k, cur, da as int)
                implies day.slot_bounds(mc.1 as int).0 < day.slot_bounds(k).0
                    || (day.slot_bounds(mc.1 as int).0 == day.slot_bounds(k).0 && mc.1 <= k) by {
                let x = (day.slot_bounds(k).0, k as usize);
                assert(c.contains(x));
                let j = choose|j: int| 0 <= j < c.len() && c[j] == x;
                assert(lex_le(mc, c[j]));
            }
        }
    }
}

/// The next block start is the earliest upcoming one within a week: a slot
/// in use that starts later today or on a coming day, the earliest-starting
/// of its day (the first slot when two start at the same minute), with no
/// slot in use on the days before it (and, today, none starting after the
/// current minute). There is no result exactly when no weekday has a slot
/// in use.
pub proof fn law_next_block_is_earliest(cfg: AppConfig, idx: int, cur: int)
    requires
        0 <= idx,
    ensures
        match next_block_from(cfg, idx, cur, 0) {
            Some((di, sh, sm, d, slot)) => {
                let day = cfg.weekly_schedule@[(idx + d) % 7];
                &&& d < 8
                &&& slot < 2
                &&& di == (idx + d) % 7
                &&& upcoming_slot(day, slot as int, cur, d as int)
                &&& (sh, sm) == (if slot == 0 { (day.start_hour, day.start_minute) } else { (day.start2_hour, day.start2_minute) })
                &&& forall|k: int| 0 <= k < 2 && #[trigger] upcoming_slot(day, k, cur, d as int)
                    ==> day.slot_bounds(slot as int).0 < day.slot_bounds(k).0
                    || (day.slot_bounds(slot as int).0 == day.slot_bounds(k).0 && slot <= k)
                &&& forall|d2: int, k: int| 0 <= d2 < d && 0 <= k < 2
                    ==> !#[trigger] upcoming_slot(cfg.weekly_schedule@[(idx + d2) % 7], k, cur, d2)
            },
            None => forall|d2: int, k: int| 0 <= d2 < 8 && 0 <= k < 2
                ==> !#[trigger] upcoming_slot(cfg.weekly_schedule@[(idx + d2) % 7], k, cur, d2),
        },
        next_block_from(cfg, idx, cur, 0) is None <==>
            forall|i: int, k: int| 0 <= i < 7 && 0 <= k < 2 ==> #[trigger] cfg.weekly_schedule@[i].spec_slot(k) is None,
{
    lemma_next_block_from(cfg, idx, cur, 0);
    if next_block_from(cfg, idx, cur, 0) is None {
        assert forall|i: int, k: int| 0 <= i < 7 && 0 <= k < 2
            implies #[trigger] cfg.weekly_schedule@[i].spec_slot(k) is None by {
            let r = (i - idx) % 7;
            let d2: int = if r == 0 { 7 } else { r };
            assert((idx + d2) % 7 == i);
            assert(!upcoming_slot(cfg.weekly_schedule@[(idx + d2) % 7], k, cur, d2));
        }
    }
}

proof fn lemma_change_from_first(grid: Seq<bool>, from: int, v: bool)
    requires
        0 <= from,
    ensures
        match change_from(grid, from, v) {
            Some(m) => from <= m < grid.len() && grid[m] != v
                && forall|j: int| from <= j < m ==> #[trigger] grid[j] == v,
            None => forall|j: int| from <= j < grid.len() ==> #[trigger] grid[j] == v,
        },
    decreases grid.len() - from,
{
    if from < grid.len() && grid[from] == v {
        lemma_change_from_first(grid, from + 1, v);
    }
}

/// Minute `m` of the day `k` days after weekday `idx` is a change away from
/// `v` for the viewer at minute `cur`: within the coming week, after the
/// current minute when it is today, and blocked differently from `v`.
pub open spec fn viewer_change(cfg: AppConfig, idx: int, cur: int, v: bool, k: int, m: int) -> bool {
    &&& 0 <= k < 8
    &&& 0 <= m < 1440
    &&& (k == 0 ==> m > cur)
    &&& schedule_grid(cfg, (idx + k) % 7)[m] != v
}

proof fn lemma_next_change_first(cfg: AppConfig, idx: int, cur: int, v: bool, da: nat)
    requires
        0 <= cur,
    ensures
        match next_change(cfg, idx, cur, v, da) {
            Some((k, m)) => da <= k && viewer_change(cfg, idx, cur, v, k as int, m)
                && forall|k2: int, m2: int| da <= k2 && (k2 < k || (k2 == k && m2 < m))
                    ==> !#[trigger] viewer_change(cfg, idx, cur, v, k2, m2),
            None => forall|k2: int, m2: int| da <= k2 ==> !#[trigger] viewer_change(cfg, idx, cur, v, k2, m2),
        },
    decreases 8 - da,
{
    if da < 8 {
        let from = if da == 0 { cur + 1 } else { 0 };
        let g = schedule_grid(cfg, (idx + da) % 7);
        lemma_change_from_first(g, from, v);
        lemma_next_change_first(cfg, idx, cur, v, da + 1);
        match change_from(g, from, v) {
            Some(m) => {
                assert forall|k2: int, m2: int| da <= k2 && (k2 < da || (k2 == da && m2 < m))
                    implies !#[trigger] viewer_change(cfg, idx, cur, v, k2, m2) by {
                    if k2 == da && viewer_change(cfg, idx, cur, v, k2, m2) {
                        assert(from <= m2);
                        assert(g[m2] == v);
                    }
                }
            },
            None => {
                assert forall|k2: int, m2: int| da <= k2 && viewer_change(cfg, idx, cur, v, k2, m2)
                    implies k2 > da by {
                    if k2 == da {
                        assert(from <= m2);
                        assert(g[m2] == v);
                    }
                }
            },
        }
    }
}

/// The viewer's headline names the earliest change: the change that
/// `current_status_spec` reports is the lexicographically first (days ahead,
/// minute) within the coming week, after the current minute, where the
/// blocked state differs from now; without one the whole week stays as now.
pub proof fn law_viewer_change_is_earliest(cfg: AppConfig, idx: int, cur: int, v: bool)
    requires
        0 <= cur < 1440,
    ensures
        match next_change(cfg, idx, cur, v, 0) {
            Some((k, m)) => viewer_change(cfg, idx, cur, v, k as int, m)
                && forall|k2: int, m2: int| (k2 < k || (k2 == k && m2 < m))
                    ==> !#[trigger] viewer_change(cfg, idx, cur, v, k2, m2),
            None => forall|k2: int, m2: int| !#[trigger] viewer_change(cfg, idx, cur, v, k2, m2),
        },
{
    lemma_next_change_first(cfg, idx, cur, v, 0);
    match next_change(cfg, idx, cur, v, 0) {
        Some((k, m)) => {
            assert forall|k2: int, m2: int| (k2 < k || (k2 == k && m2 < m))
                implies !#[trigger] viewer_change(cfg, idx, cur, v, k2, m2) by {
                if k2 < 0 {
                    assert(!viewer_change(cfg, idx, cur, v, k2, m2));
                }
            }
        },
        None => {
            assert forall|k2: int, m2: int| !#[trigger] viewer_change(cfg, idx, cur, v, k2, m2) by {
                if k2 < 0 {
                    assert(!viewer_change(cfg, idx, cur, v, k2, m2));
                }
            }
        },
    }
}

/// The end of the current block is the end time of the slot that blocks
/// the current minute: slot 0 ends at (end hour, end minute), slot 1 at
/// (second end hour, second end minute), and that slot, in use, either covers
/// the minute on its own day or is the previous day's crossing slot spilling
/// over it.
pub proof fn law_block_end_is_the_active_slot_end(cfg: AppConfig, wd: int, cur: int)
    requires
        cfg.wf(),
        0 <= wd,
    ensures
        current_block_end_spec(cfg, wd, cur) matches Some((eh, em, d, slot)) ==> {
            let day = cfg.weekly_schedule@[d as int];
            &&& d < 7
            &&& slot < 2
            &&& (eh, em) == (if slot == 0 { (day.end_hour, day.end_minute) } else { (day.end2_hour, day.end2_minute) })
            &&& day.spec_slot(slot as int) matches Some((s, e)) && (
                (d == wd % 7 && covers_today(s as int, e as int, cur))
                || (d == (wd + 6) % 7 && covers_spill(s as int, e as int, cur)))
        },
{
    lemma_block_source(cfg, wd, cur);
    let t = cfg.weekly_schedule@[wd % 7];
    let p = cfg.weekly_schedule@[(wd + 6) % 7];
    lemma_first_today_from(t.spec_active_slots(), cur, 0);
    lemma_first_spill_from(p.spec_active_slots(), cur, 0);
    lemma_active_slots_members(t);
    lemma_active_slots_members(p);
}

/// `d` days after weekday `wd` is the first day, within a week and counting
/// today after minute `cur`, with an upcoming slot in use.
pub open spec fn first_block_day(cfg: AppConfig, wd: int, cur: int, d: int) -> bool {
    &&& 0 <= d < 8
    &&& exists|k: int| 0 <= k < 2 && #[trigger] upcoming_slot(cfg.weekly_schedule@[(wd + d) % 7], k, cur, d)
    &&& forall|d2: int, k: int| 0 <= d2 < d && 0 <= k < 2
        ==> !#[trigger] upcoming_slot(cfg.weekly_schedule@[(wd + d2) % 7], k, cur, d2)
}

/// While the current minute is allowed and some weekday has a slot in use,
/// the status texts name as the next block the first coming day (counting
/// today after the current minute) that has an upcoming slot, with that
/// day's slots, after today's name and today's slots.
pub proof fn law_allowed_status_names_the_next_block_day(l: texts::Language, cfg: AppConfig, wd: int, cur: int)
    requires
        cfg.wf(),
        0 <= wd < 7,
        !blocked_at(cfg, wd, cur),
        exists|i: int, k: int| 0 <= i < 7 && 0 <= k < 2 && #[trigger] cfg.weekly_schedule@[i].spec_slot(k) is Some,
    ensures
        exists|d: int| {
            &&& #[trigger] first_block_day(cfg, wd, cur, d)
            &&& describe_spec(l, cfg, wd, cur) == (
                texts::allowed_summary_spec(
                    l,
                    texts::weekday_full_spec(l, wd),
                    format_day_slots_spec(l, cfg.weekly_schedule@[wd]),
                    texts::weekday_short_spec(l, (wd + d) % 7),
                    format_day_slots_spec(l, cfg.weekly_schedule@[(wd + d) % 7]),
                ),
                texts::allowed_tooltip_spec(
                    l,
                    texts::weekday_full_spec(l, wd),
                    texts::weekday_short_spec(l, (wd + d) % 7),
                    format_day_slots_spec(l, cfg.weekly_schedule@[(wd + d) % 7]),
                ),
            )
        },
{
    law_block_end_iff_blocked(cfg, wd, cur);
    law_next_block_is_earliest(cfg, wd, cur);
    let (i, k) = choose|i: int, k: int| 0 <= i < 7 && 0 <= k < 2 && #[trigger] cfg.weekly_schedule@[i].spec_slot(k) is Some;
    assert(cfg.weekly_schedule@[i].spec_slot(k) is Some);
    let r = next_block_from(cfg, wd, cur, 0);
    assert(r is Some);
    let (di, sh, sm, d, slot) = r.unwrap();
    assert(upcoming_slot(cfg.weekly_schedule@[(wd + d) % 7], slot as int, cur, d as int));
    assert(first_block_day(cfg, wd, cur, d as int));
}

/// `s` whole seconds are in `diff` nanoseconds (the rest below a second dropped).
pub open spec fn whole_seconds_left(diff: int, s: int) -> bool {
    s * 1_000_000_000 <= diff < (s + 1) * 1_000_000_000
}

/// `r` is `s` seconds in minutes, rounded up.
pub open spec fn minutes_rounded_up(s: int, r: int) -> bool {
    60 * (r - 1) < s <= 60 * r
}

/// `m` minutes last at least `diff` nanoseconds.
pub open spec fn minutes_cover(diff: int, m: int) -> bool {
    diff <= m * 60_000_000_000
}

/// While a temporary allow runs, the status shows the time really left,
/// whatever the wall-clock fields: `s` whole seconds are left (the remainder
/// below a second dropped), and the minutes shown are `s / 60` rounded up;
/// so they are at least one once a whole second is left, and never more than
/// any number of minutes that covers the time left. The tooltip shows the
/// same minutes and the end's local time.
pub proof fn law_temporary_allow_minutes_left(l: texts::Language, cfg: AppConfig, u: Moment, now: Moment)
    requires
        now.instant() < u.instant(),
    ensures
        exists|r: int, s: int| {
            &&& #[trigger] whole_seconds_left(u.instant() - now.instant(), s)
            &&& #[trigger] minutes_rounded_up(s, r)
            &&& (s >= 1 ==> r >= 1)
            &&& forall|m: int| #[trigger] minutes_cover(u.instant() - now.instant(), m) ==> r <= m
            &&& desired_status(l, cfg, None, Some(u), now).0 == false
            &&& desired_status(l, cfg, None, Some(u), now).2 == texts::temp_allow_summary_spec(l, r)
            &&& desired_status(l, cfg, None, Some(u), now).3
                == texts::temp_allow_tooltip_spec(l, r, format_hm_spec(u.hour as nat, u.minute as nat))
        },
{
    let diff = u.instant() - now.instant();
    let s = diff / 1_000_000_000;
    let r = (s + 59) / 60;
    assert(s * 1_000_000_000 <= diff < (s + 1) * 1_000_000_000) by (nonlinear_arith)
        requires s == diff / 1_000_000_000, diff > 0;
    assert(60 * (r - 1) < s <= 60 * r) by (nonlinear_arith)
        requires r == (s + 59) / 60, s >= 0;
    assert(whole_seconds_left(diff, s));
    assert(minutes_rounded_up(s, r));
    assert forall|m: int| #[trigger] minutes_cover(diff, m) implies r <= m by {
        assert(s <= 60 * m) by (nonlinear_arith)
            requires s * 1_000_000_000 <= diff, diff <= m * 60_000_000_000;
    }
}

/// The English month abbreviations (`%b`): month `m` (1 to 12) is the
/// `m`-th three letters of `JanFebMarAprMayJunJulAugSepOctNovDec`, so the
/// twelve names are distinct and in calendar order.
pub proof fn law_month_abbreviations()
    ensures
        forall|m: int| 1 <= m <= 12 ==> #[trigger] month_abbr_spec(m)
            == "JanFebMarAprMayJunJulAugSepOctNovDec"@.subrange(3 * (m - 1), 3 * m),
        forall|m1: int, m2: int| 1 <= m1 <= 12 && 1 <= m2 <= 12 && m1 != m2
            ==> #[trigger] month_abbr_spec(m1) != #[trigger] month_abbr_spec(m2),
{
    reveal_strlit("JanFebMarAprMayJunJulAugSepOctNovDec");
    reveal_strlit("Jan");
    reveal_strlit("Feb");
    reveal_strlit("Mar");
    reveal_strlit("Apr");
    reveal_strlit("May");
    reveal_strlit("Jun");
    reveal_strlit("Jul");
    reveal_strlit("Aug");
    reveal_strlit("Sep");
    reveal_strlit("Oct");
    reveal_strlit("Nov");
    reveal_strlit("Dec");
    let all = "JanFebMarAprMayJunJulAugSepOctNovDec"@;
    assert forall|m: int| 1 <= m <= 12 implies #[trigger] month_abbr_spec(m) == all.subrange(3 * (m - 1), 3 * m) by {
        assert(month_abbr_spec(m) =~= all.subrange(3 * (m - 1), 3 * m));
    }
    assert forall|m1: int, m2: int| 1 <= m1 <= 12 && 1 <= m2 <= 12 && m1 != m2
        implies #[trigger] month_abbr_spec(m1) != #[trigger] month_abbr_spec(m2) by {
        let a = month_abbr_spec(m1);
        let b = month_abbr_spec(m2);
        assert(a == all.subrange(3 * (m1 - 1), 3 * m1));
        assert(b == all.subrange(3 * (m2 - 1), 3 * m2));
        if a == b {
            assert(a[0] == b[0] && a[1] == b[1] && a[2] == b[2]);
            assert(false);
        }
    }
}

/// `part` occurs in `text` at position `p`.
pub open spec fn occurs_in_at(text: Seq<char>, part: Seq<char>, p: int) -> bool {
    0 <= p && p + part.len() <= text.len() && text.subrange(p, p + part.len()) == part
}

proof fn lemma_trigger_in_triggers(bs: Seq<Seq<char>>, i: int)
    requires
        0 <= i < bs.len(),
    ensures
        exists|p: int| #[trigger] occurs_in_at(guard_triggers_spec(bs), guard_trigger_spec(bs[i]), p),
    decreases bs.len(),
{
    let init = bs.drop_last();
    let head = guard_triggers_spec(init);
    let t = guard_trigger_spec(bs.last());
    assert(guard_triggers_spec(bs) == head + t);
    if i == bs.len() - 1 {
        assert((head + t).subrange(head.len() as int, (head.len() + t.len()) as int) =~= t);
        assert(occurs_in_at(guard_triggers_spec(bs), guard_trigger_spec(bs[i]), head.len() as int));
    } else {
        lemma_trigger_in_triggers(init, i);
        assert(init[i] == bs[i]);
        let p = choose|p: int| #[trigger] occurs_in_at(head, guard_trigger_spec(init[i]), p);
        let part = guard_trigger_spec(bs[i]);
        assert((head + t).subrange(p, p + part.len()) =~= head.subrange(p, p + part.len()));
        assert(occurs_in_at(guard_triggers_spec(bs), part, p));
    }
}

/// The keep-alive task has, for every start time given, an enabled time
/// trigger from that start that repeats every minute without end.
pub proof fn law_guard_triggers_enabled_every_minute(exe: Seq<char>, user: Seq<char>, bs: Seq<Seq<char>>, i: int)
    requires
        0 <= i < bs.len(),
    ensures
        exists|p: int| #[trigger] occurs_in_at(
            guard_task_xml_spec(exe, user, bs),
            "    <TimeTrigger>\n<StartBoundary>"@ + bs[i]
                + "</StartBoundary>\n<Repetition>\n<Interval>PT1M</Interval>\n<StopAtDurationEnd>false</StopAtDurationEnd>\n</Repetition>\n<Enabled>true</Enabled>\n</TimeTrigger>\n"@,
            p,
        ),
{
    lemma_trigger_in_triggers(bs, i);
    let trig = guard_trigger_spec(bs[i]);
    let mid = guard_triggers_spec(bs);
    let p = choose|p: int| #[trigger] occurs_in_at(mid, trig, p);
    let head = "<?xml version=\"1.0\" encoding=\"UTF-16\"?>\n<Task version=\"1.2\" xmlns=\"http://schemas.microsoft.com/windows/2004/02/mit/task\">\n<RegistrationInfo>\n<Description>KidInternetLock keep-alive</Description>\n</RegistrationInfo>\n<Principals>\n<Principal id=\"Author\">\n<UserId>"@ + text_escape_spec(user)
        + "</UserId>\n<LogonType>InteractiveToken</LogonType>\n<RunLevel>HighestAvailable</RunLevel>\n</Principal>\n</Principals>\n<Settings>\n<MultipleInstancesPolicy>IgnoreNew</MultipleInstancesPolicy>\n<DisallowStartIfOnBatteries>false</DisallowStartIfOnBatteries>\n<StopIfGoingOnBatteries>false</StopIfGoingOnBatteries>\n<StartWhenAvailable>true</StartWhenAvailable>\n<AllowStartOnDemand>true</AllowStartOnDemand>\n<Enabled>true</Enabled>\n<Hidden>false</Hidden>\n<RunOnlyIfIdle>false</RunOnlyIfIdle>\n<WakeToRun>false</WakeToRun>\n<ExecutionTimeLimit>PT0S</ExecutionTimeLimit>\n<Priority>7</Priority>\n</Settings>\n<Triggers>\n"@;
    let tail = "  </Triggers>\n<Actions Context=\"Author\">\n<Exec>\n<Command>\""@ + text_escape_spec(exe)
        + "\"</Command>\n<Arguments>--silent</Arguments>\n</Exec>\n</Actions>\n</Task>\n"@;
    let xml = guard_task_xml_spec(exe, user, bs);
    assert(xml == head + mid + tail);
    let q = head.len() + p;
    assert((head + mid + tail).subrange(q, q + trig.len()) =~= mid.subrange(p, p + trig.len()));
    assert(occurs_in_at(xml, trig, q));
}

/// Slot `slot` of weekday `d` is in use and blocks minute `cur` of weekday
/// `wd`: on its own day, or as the previous day's crossing slot.
pub open spec fn active_slot(cfg: AppConfig, wd: int, cur: int, d: int, slot: int) -> bool {
    &&& 0 <= d < 7
    &&& 0 <= slot < 2
    &&& cfg.weekly_schedule@[d].spec_slot(slot) matches Some((s, e)) && (
        (d == wd % 7 && covers_today(s as int, e as int, cur))
        || (d == (wd + 6) % 7 && covers_spill(s as int, e as int, cur)))
}

/// While the current minute is blocked, the status texts name a slot that
/// blocks it: its day's short name, its start and end as set (slot 0 from
/// the first start and end fields, slot 1 from the second), all that day's
/// slots, and its end as the time the block is lifted.
pub proof fn law_blocked_status_names_the_active_slot(l: texts::Language, cfg: AppConfig, wd: int, cur: int)
    requires
        cfg.wf(),
        0 <= wd,
        blocked_at(cfg, wd, cur),
    ensures
        exists|d: int, slot: int| {
            let day = cfg.weekly_schedule@[d];
            let (sh, sm) = if slot == 0 { (day.start_hour, day.start_minute) } else { (day.start2_hour, day.start2_minute) };
            let (eh, em) = if slot == 0 { (day.end_hour, day.end_minute) } else { (day.end2_hour, day.end2_minute) };
            &&& #[trigger] active_slot(cfg, wd, cur, d, slot)
            &&& describe_spec(l, cfg, wd, cur) == (
                texts::blocked_summary_spec(
                    l,
                    texts::weekday_short_spec(l, d),
                    format_slot_spec(sh as nat, sm as nat, eh as nat, em as nat),
                    format_day_slots_spec(l, day),
                    format_hm_spec(eh as nat, em as nat),
                ),
                texts::blocked_tooltip_spec(
                    l,
                    texts::weekday_short_spec(l, d),
                    format_day_slots_spec(l, day),
                    format_hm_spec(eh as nat, em as nat),
                ),
            )
        },
{
    law_block_end_iff_blocked(cfg, wd, cur);
    law_block_end_is_the_active_slot_end(cfg, wd, cur);
    let (eh, em, d, slot) = current_block_end_spec(cfg, wd, cur).unwrap();
    assert(active_slot(cfg, wd, cur, d as int, slot as int));
}

} // verus!
