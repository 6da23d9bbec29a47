//! When a minute of a day is blocked, and the available (unblocked) ranges
//! of a day.
//!
//! A block slot runs from `start` to `end` minutes since midnight. A slot with
//! `start < end` blocks `[start, end)` of its own day. A slot with
//! `start > end` crosses midnight: it blocks `[start, 1440)` of its own day and
//! `[0, end)` of the next day, even when the next day is unchecked. A slot with
//! `start == end` is unused.

use vstd::prelude::*;
use crate::config::{AppConfig, DaySchedule};

verus! {

/// Minutes in a day.
pub const DAY_MINUTES: u32 = 1440;

/// Slot `[s, e)` blocks minute `m` of its own day.
pub open spec fn covers_today(s: int, e: int, m: int) -> bool {
    if s < e {
        s <= m && m < e
    } else if s > e {
        m >= s
    } else {
        false
    }
}

/// A crossing slot `[s, e)` of the previous day blocks minute `m` of this day.
pub open spec fn covers_spill(s: int, e: int, m: int) -> bool {
    s > e && m < e
}

/// Some slot among `slots` blocks minute `m` of its own day.
pub open spec fn slots_block_today(slots: Seq<(u32, u32, usize)>, m: int) -> bool {
    exists|i: int| 0 <= i < slots.len() && covers_today(#[trigger] slots[i].0 as int, slots[i].1 as int, m)
}

/// Some slot among the previous day's `slots` spills over minute `m`.
pub open spec fn slots_spill(slots: Seq<(u32, u32, usize)>, m: int) -> bool {
    exists|i: int| 0 <= i < slots.len() && covers_spill(#[trigger] slots[i].0 as int, slots[i].1 as int, m)
}

/// A day's own slots block minute `m` of that day.
pub open spec fn day_blocks_today(d: DaySchedule, m: int) -> bool {
    ||| (d.spec_slot(0) matches Some((s, e)) && covers_today(s as int, e as int, m))
    ||| (d.spec_slot(1) matches Some((s, e)) && covers_today(s as int, e as int, m))
}

/// A day's crossing slots block minute `m` of the next day.
pub open spec fn day_spills(d: DaySchedule, m: int) -> bool {
    ||| (d.spec_slot(0) matches Some((s, e)) && covers_spill(s as int, e as int, m))
    ||| (d.spec_slot(1) matches Some((s, e)) && covers_spill(s as int, e as int, m))
}

/// Minute `m` of weekday `day` (Monday = 0) is blocked by the schedule:
/// by one of that day's own slots, or by the previous day's crossing slot.
pub open spec fn blocked_at(cfg: AppConfig, day: int, m: int) -> bool {
    day_blocks_today(cfg.weekly_schedule@[day % 7], m)
        || day_spills(cfg.weekly_schedule@[(day + 6) % 7], m)
}

/// Minute `m` is blocked by one of `today`'s (start, end) slots or spilled
/// over by a crossing slot of `prev`, the previous day's slots.
pub open spec fn pairs_block(today: Seq<(u32, u32)>, prev: Seq<(u32, u32)>, m: int) -> bool {
    (exists|i: int| 0 <= i < today.len() && covers_today(#[trigger] today[i].0 as int, today[i].1 as int, m))
        || (exists|j: int| 0 <= j < prev.len() && covers_spill(#[trigger] prev[j].0 as int, prev[j].1 as int, m))
}

/// The blocked minutes of a day given its slots and the previous day's.
pub open spec fn pairs_grid(today: Seq<(u32, u32)>, prev: Seq<(u32, u32)>) -> Seq<bool> {
    Seq::new(DAY_MINUTES as nat, |m: int| pairs_block(today, prev, m))
}

/// The blocked minutes of weekday `day` under a configuration.
pub open spec fn schedule_grid(cfg: AppConfig, day: int) -> Seq<bool> {
    Seq::new(DAY_MINUTES as nat, |m: int| blocked_at(cfg, day, m))
}

/// A day's slots in use, as (start, end) pairs in slot order.
pub open spec fn day_pairs(d: DaySchedule) -> Seq<(u32, u32)> {
    d.spec_active_slots().map_values(|t: (u32, u32, usize)| (t.0, t.1))
}

/// The pair form of two days' slots blocks the same minutes as the schedule.
pub proof fn lemma_pairs_match_schedule(cfg: AppConfig, day: int)
    requires
        cfg.wf(),
        day >= 0,
    ensures
        pairs_grid(day_pairs(cfg.weekly_schedule@[day % 7]), day_pairs(cfg.weekly_schedule@[(day + 6) % 7]))
            == schedule_grid(cfg, day),
{
    let t = cfg.weekly_schedule@[day % 7];
    let p = cfg.weekly_schedule@[(day + 6) % 7];
    assert(t.fits());
    assert(p.fits());
    let ts = t.spec_active_slots();
    let ps = p.spec_active_slots();
    let tp = day_pairs(t);
    let pp = day_pairs(p);
    assert forall|m: int| 0 <= m < DAY_MINUTES implies pairs_block(tp, pp, m) == blocked_at(cfg, day, m) by {
        lemma_active_slots_block(t, m);
        lemma_active_slots_block(p, m);
        if slots_block_today(ts, m) {
            let i = choose|i: int| 0 <= i < ts.len() && covers_today(#[trigger] ts[i].0 as int, ts[i].1 as int, m);
            assert(covers_today(tp[i].0 as int, tp[i].1 as int, m));
        }
        if slots_spill(ps, m) {
            let i = choose|i: int| 0 <= i < ps.len() && covers_spill(#[trigger] ps[i].0 as int, ps[i].1 as int, m);
            assert(covers_spill(pp[i].0 as int, pp[i].1 as int, m));
        }
        if exists|i: int| 0 <= i < tp.len() && covers_today(#[trigger] tp[i].0 as int, tp[i].1 as int, m) {
            let i = choose|i: int| 0 <= i < tp.len() && covers_today(#[trigger] tp[i].0 as int, tp[i].1 as int, m);
            assert(covers_today(ts[i].0 as int, ts[i].1 as int, m));
        }
        if exists|i: int| 0 <= i < pp.len() && covers_spill(#[trigger] pp[i].0 as int, pp[i].1 as int, m) {
            let i = choose|i: int| 0 <= i < pp.len() && covers_spill(#[trigger] pp[i].0 as int, pp[i].1 as int, m);
            assert(covers_spill(ps[i].0 as int, ps[i].1 as int, m));
        }
    }
    assert(pairs_grid(tp, pp) =~= schedule_grid(cfg, day));
}

/// The list form of a day's slots says the same as the day itself.
pub proof fn lemma_active_slots_block(d: DaySchedule, m: int)
    requires
        d.fits(),
    ensures
        slots_block_today(d.spec_active_slots(), m) == day_blocks_today(d, m),
        slots_spill(d.spec_active_slots(), m) == day_spills(d, m),
{
    let sl = d.spec_active_slots();
    let (s0, e0) = d.slot_bounds(0);
    let (s1, e1) = d.slot_bounds(1);
    let a = (s0, e0, 0usize);
    let b = (s1, e1, 1usize);
    if d.spec_slot(0) is Some && d.spec_slot(1) is Some {
        assert(sl =~= seq![a, b]);
        if covers_today(s0 as int, e0 as int, m) { assert(covers_today(sl[0].0 as int, sl[0].1 as int, m)); }
        if covers_today(s1 as int, e1 as int, m) { assert(covers_today(sl[1].0 as int, sl[1].1 as int, m)); }
        if covers_spill(s0 as int, e0 as int, m) { assert(covers_spill(sl[0].0 as int, sl[0].1 as int, m)); }
        if covers_spill(s1 as int, e1 as int, m) { assert(covers_spill(sl[1].0 as int, sl[1].1 as int, m)); }
    } else if d.spec_slot(0) is Some {
        assert(sl =~= seq![a]);
        if covers_today(s0 as int, e0 as int, m) { assert(covers_today(sl[0].0 as int, sl[0].1 as int, m)); }
        if covers_spill(s0 as int, e0 as int, m) { assert(covers_spill(sl[0].0 as int, sl[0].1 as int, m)); }
    } else if d.spec_slot(1) is Some {
        assert(sl =~= seq![b]);
        if covers_today(s1 as int, e1 as int, m) { assert(covers_today(sl[0].0 as int, sl[0].1 as int, m)); }
        if covers_spill(s1 as int, e1 as int, m) { assert(covers_spill(sl[0].0 as int, sl[0].1 as int, m)); }
    } else {
        assert(sl =~= Seq::<(u32, u32, usize)>::empty());
    }
}

/// Whether one of `slots` blocks minute `m` of its own day.
pub fn any_slot_blocks_today(slots: &Vec<(u32, u32, usize)>, m: u32) -> (b: bool)
    ensures
        b == slots_block_today(slots@, m as int),
{
    let mut i: usize = 0;
    while i < slots.len()
        invariant
            i <= slots@.len(),
            forall|k: int| 0 <= k < i ==> !covers_today(#[trigger] slots@[k].0 as int, slots@[k].1 as int, m as int),
        decreases slots@.len() - i,
    {
        let (s, e, _) = slots[i];
        if s < e {
            if m >= s && m < e {
                return true;
            }
        } else if m >= s {
            if s != e {
                return true;
            }
        }
        i = i + 1;
    }
    false
}

/// Whether one of the previous day's `slots` spills over minute `m`.
pub fn any_slot_spills(slots: &Vec<(u32, u32, usize)>, m: u32) -> (b: bool)
    ensures
        b == slots_spill(slots@, m as int),
{
    let mut i: usize = 0;
    while i < slots.len()
        invariant
            i <= slots@.len(),
            forall|k: int| 0 <= k < i ==> !covers_spill(#[trigger] slots@[k].0 as int, slots@[k].1 as int, m as int),
        decreases slots@.len() - i,
    {
        let (s, e, _) = slots[i];
        if s > e && m < e {
            return true;
        }
        i = i + 1;
    }
    false
}

/// Whether one of `slots` blocks minute `m` of its own day (unused slots skipped).
pub fn any_pair_blocks_today(slots: &[(u32, u32)], m: u32) -> (b: bool)
    ensures
        b == (exists|i: int| 0 <= i < slots@.len() && covers_today(#[trigger] slots@[i].0 as int, slots@[i].1 as int, m as int)),
{
    let mut i: usize = 0;
    while i < slots.len()
        invariant
            i <= slots@.len(),
            forall|k: int| 0 <= k < i ==> !covers_today(#[trigger] slots@[k].0 as int, slots@[k].1 as int, m as int),
        decreases slots@.len() - i,
    {
        let (s, e) = slots[i];
        if s != e {
            if s < e {
                if m >= s && m < e {
                    return true;
                }
            } else if m >= s {
                return true;
            }
        }
        i = i + 1;
    }
    false
}

/// Whether one of the previous day's `slots` spills over minute `m` (unused slots skipped).
pub fn any_pair_spills(slots: &[(u32, u32)], m: u32) -> (b: bool)
    ensures
        b == (exists|i: int| 0 <= i < slots@.len() && covers_spill(#[trigger] slots@[i].0 as int, slots@[i].1 as int, m as int)),
{
    let mut i: usize = 0;
    while i < slots.len()
        invariant
            i <= slots@.len(),
            forall|k: int| 0 <= k < i ==> !covers_spill(#[trigger] slots@[k].0 as int, slots@[k].1 as int, m as int),
        decreases slots@.len() - i,
    {
        let (s, e) = slots[i];
        if s != e {
            if s > e && m < e {
                return true;
            }
        }
        i = i + 1;
    }
    false
}

/// `r` lists the maximal runs of free (`false`) minutes of `grid`, in order:
/// each run is non-empty, free throughout, bounded by blocked minutes or the
/// ends of the day, runs are separated, and every free minute is in a run.
pub open spec fn maximal_free_runs(grid: Seq<bool>, r: Seq<(u32, u32)>) -> bool {
    &&& forall|i: int| 0 <= i < r.len() ==> (#[trigger] r[i]).0 < r[i].1 && r[i].1 <= grid.len()
    &&& forall|i: int, m: int| 0 <= i < r.len() && (#[trigger] r[i]).0 <= m < r[i].1 ==> !(#[trigger] grid[m])
    &&& forall|i: int| 0 <= i < r.len() ==> (#[trigger] r[i]).0 == 0 || grid[r[i].0 - 1]
    &&& forall|i: int| 0 <= i < r.len() ==> (#[trigger] r[i]).1 == grid.len() || grid[r[i].1 as int]
    &&& forall|i: int, j: int| 0 <= i < j < r.len() ==> (#[trigger] r[i]).1 < (#[trigger] r[j]).0
    &&& forall|m: int| 0 <= m < grid.len() && !(#[trigger] grid[m]) ==> exists|i: int| 0 <= i < r.len() && (#[trigger] r[i]).0 <= m < r[i].1
}

/// First blocked minute (or the end of the grid) at or after `m`.
pub open spec fn run_end(grid: Seq<bool>, m: nat) -> nat
    decreases grid.len() - m,
{
    if m >= grid.len() || grid[m as int] {
        m
    } else {
        run_end(grid, m + 1)
    }
}

/// The runs of free minutes of `grid` that start at or after `m`, in order,
/// where `m` is taken as the start of a run when it is free.
pub open spec fn runs_from(grid: Seq<bool>, m: nat) -> Seq<(u32, u32)>
    decreases grid.len() - m, 1nat,
{
    if m >= grid.len() {
        Seq::empty()
    } else if grid[m as int] {
        runs_from(grid, m + 1)
    } else {
        let e = run_end(grid, m + 1);
        proof {
            lemma_run_end_bounds(grid, m + 1);
        }
        seq![(m as u32, e as u32)] + runs_from(grid, e)
    }
}

/// The maximal runs of free minutes of a grid, in order.
pub open spec fn free_runs(grid: Seq<bool>) -> Seq<(u32, u32)> {
    runs_from(grid, 0)
}

/// A run that starts at `m` ends within the grid, not before `m`.
pub proof fn lemma_run_end_bounds(grid: Seq<bool>, m: nat)
    requires
        m <= grid.len(),
    ensures
        m <= run_end(grid, m) <= grid.len(),
    decreases grid.len() - m,
{
    if m < grid.len() && !grid[m as int] {
        lemma_run_end_bounds(grid, m + 1);
    }
}

/// The available ranges of a day from its blocked-minute grid: each maximal
/// run of unblocked minutes as (start, end) with `end` exclusive.
pub fn allowed_ranges(grid: &[bool; 1440]) -> (out: Vec<(u32, u32)>)
    ensures
        out@ == free_runs(grid@),
        maximal_free_runs(grid@, out@),
{
    let mut out: Vec<(u32, u32)> = Vec::new();
    let mut m: usize = 0;
    while m < 1440
        invariant
            m <= 1440,
            grid@.len() == 1440,
            m < 1440 ==> (m == 0 || grid@[m - 1] || grid@[m as int]),
            out@ + runs_from(grid@, m as nat) == free_runs(grid@),
            forall|i: int| 0 <= i < out@.len() ==> (#[trigger] out@[i]).0 < out@[i].1 && out@[i].1 <= m,
            forall|i: int, k: int| 0 <= i < out@.len() && (#[trigger] out@[i]).0 <= k < out@[i].1 ==> !(#[trigger] grid@[k]),
            forall|i: int| 0 <= i < out@.len() ==> (#[trigger] out@[i]).0 == 0 || grid@[out@[i].0 - 1],
            forall|i: int| 0 <= i < out@.len() ==> (#[trigger] out@[i]).1 == 1440 || grid@[out@[i].1 as int],
            forall|i: int, j: int| 0 <= i < j < out@.len() ==> (#[trigger] out@[i]).1 < (#[trigger] out@[j]).0,
            forall|k: int| 0 <= k < m && !(#[trigger] grid@[k]) ==> exists|i: int| 0 <= i < out@.len() && (#[trigger] out@[i]).0 <= k < out@[i].1,
        decreases 1440 - m,
    {
        if !grid[m] {
            let start = m;
            while m < 1440 && !grid[m]
                invariant
                    start <= m <= 1440,
                    grid@.len() == 1440,
                    forall|k: int| start <= k < m ==> !grid@[k],
                    start < m ==> run_end(grid@, (start + 1) as nat) == run_end(grid@, m as nat),
                    !grid@[start as int],
                decreases 1440 - m,
            {
                m = m + 1;
            }
            proof {
                lemma_run_end_bounds(grid@, (start + 1) as nat);
                assert(run_end(grid@, m as nat) == m);
                assert(runs_from(grid@, start as nat) == seq![(start as u32, m as u32)] + runs_from(grid@, m as nat));
            }
            let ghost old_out = out@;
            out.push((start as u32, m as u32));
            proof {
                assert forall|i: int, j: int| 0 <= i < j < out@.len() implies (#[trigger] out@[i]).1 < (#[trigger] out@[j]).0 by {
                    if j == out@.len() - 1 {
                        assert(old_out[i].1 <= start);
                        if old_out[i].1 == start {
                            assert(grid@[start as int]);
                        }
                    } else {
                        assert(out@[i] == old_out[i] && out@[j] == old_out[j]);
                    }
                }
                assert forall|k: int| 0 <= k < m && !(#[trigger] grid@[k]) implies exists|i: int| 0 <= i < out@.len() && (#[trigger] out@[i]).0 <= k < out@[i].1 by {
                    if k >= start {
                        assert(out@[out@.len() - 1].0 <= k < out@[out@.len() - 1].1);
                    } else {
                        let i = choose|i: int| 0 <= i < old_out.len() && (#[trigger] old_out[i]).0 <= k < old_out[i].1;
                        assert(out@[i] == old_out[i]);
                    }
                }
            }
        } else {
            proof {
                assert(runs_from(grid@, m as nat) == runs_from(grid@, (m + 1) as nat));
            }
            m = m + 1;
        }
    }
    proof {
        assert(out@ + runs_from(grid@, 1440) == out@);
    }
    out
}

} // verus!
