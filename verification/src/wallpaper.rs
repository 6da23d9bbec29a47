//! The weekly schedule as drawn on the desktop wallpaper: per-day available
//! ranges, blocked bar segments and range labels.

use vstd::prelude::*;
use crate::config::AppConfig;
use crate::texts::{self, Language};
use crate::text::{pad2, push_pad2};
use crate::schedule::{DAY_MINUTES, allowed_ranges, any_pair_blocks_today, any_pair_spills, day_pairs, free_runs, maximal_free_runs, pairs_block, pairs_grid, schedule_grid, lemma_pairs_match_schedule, runs_from};

verus! {

/// Available (unblocked) ranges of a calendar day from raw (start, end)
/// minute slots: `start == end` means unused, and crossing slots of `prev`
/// (yesterday's slots) spill into this morning.
pub fn allowed_ranges_for_day(today: &[(u32, u32)], prev: &[(u32, u32)]) -> (out: Vec<(u32, u32)>)
    ensures
        out@ == free_runs(pairs_grid(today@, prev@)),
        maximal_free_runs(pairs_grid(today@, prev@), out@),
{
    let mut blocked = [false; 1440];
    let mut m: u32 = 0;
    while m < DAY_MINUTES
        invariant
            m <= DAY_MINUTES,
            forall|k: int| 0 <= k < m ==> blocked@[k] == pairs_block(today@, prev@, k),
        decreases DAY_MINUTES - m,
    {
        let mut b = any_pair_blocks_today(today, m);
        if !b {
            b = any_pair_spills(prev, m);
        }
        blocked[m as usize] = b;
        m = m + 1;
    }
    proof {
        assert(blocked@ =~= pairs_grid(today@, prev@));
    }
    allowed_ranges(&blocked)
}

/// A weekday's slots in use as (start, end) pairs.
pub fn day_slots(cfg: &AppConfig, idx: usize) -> (r: Vec<(u32, u32)>)
    requires
        cfg.wf(),
    ensures
        r@ == day_pairs(cfg.weekly_schedule@[(idx % 7) as int]),
{
    let d = &cfg.weekly_schedule[idx % 7];
    proof {
        assert(cfg.weekly_schedule@[(idx % 7) as int].fits());
    }
    let slots = d.active_slots();
    let mut r: Vec<(u32, u32)> = Vec::new();
    let mut i: usize = 0;
    while i < slots.len()
        invariant
            i <= slots@.len(),
            slots@ == d.spec_active_slots(),
            r@ == slots@.take(i as int).map_values(|t: (u32, u32, usize)| (t.0, t.1)),
        decreases slots@.len() - i,
    {
        let (s, e, _) = slots[i];
        r.push((s, e));
        i = i + 1;
        proof {
            assert(r@ =~= slots@.take(i as int).map_values(|t: (u32, u32, usize)| (t.0, t.1)));
        }
    }
    proof {
        assert(slots@.take(slots@.len() as int) =~= slots@);
    }
    r
}


/// `HH:MM` of minutes since midnight; `24:00` from the end of the day on.
pub open spec fn fmt_hm_spec(total: nat) -> Seq<char> {
    if total >= DAY_MINUTES {
        "24:00"@
    } else {
        pad2(total / 60) + seq![':'] + pad2(total % 60)
    }
}

/// `HH:MM - HH:MM` of a range.
pub open spec fn range_text(r: (u32, u32)) -> Seq<char> {
    fmt_hm_spec(r.0 as nat) + " - "@ + fmt_hm_spec(r.1 as nat)
}

/// Ranges as text, joined with `",  "`.
pub open spec fn join_ranges(rs: Seq<(u32, u32)>) -> Seq<char>
    decreases rs.len(),
{
    if rs.len() == 0 {
        Seq::empty()
    } else if rs.len() == 1 {
        range_text(rs[0])
    } else {
        join_ranges(rs.drop_last()) + ",  "@ + range_text(rs.last())
    }
}

/// The label of a day's available ranges: blocked all day, available all
/// day, or the ranges.
pub open spec fn describe_ranges_spec(l: Language, rs: Seq<(u32, u32)>) -> Seq<char> {
    if rs.len() == 0 {
        texts::blocked_all_day_spec(l)@
    } else if rs.len() == 1 && rs[0] == (0u32, DAY_MINUTES) {
        texts::available_all_day_spec(l)@
    } else {
        join_ranges(rs)
    }
}

/// Integer division rounding toward zero (Rust's `/` on signed integers),
/// for a positive divisor.
pub open spec fn div_toward_zero(a: int, b: int) -> int {
    if a >= 0 { a / b } else { -((-a) / b) }
}

/// The x coordinate `part / whole` of the way from `x0` to `x1`, as the
/// drawing code computes it: `x0 + (x1 - x0) * part / whole`.
pub open spec fn bar_x_spec(x0: int, x1: int, part: int, whole: int) -> int {
    x0 + div_toward_zero((x1 - x0) * part, whole)
}

/// The x coordinate `part / whole` of the way along a bar from `x0` to `x1`
/// (a minute of the day with `whole` 1440, an hour with 24).
pub fn bar_x(x0: i32, x1: i32, part: u32, whole: u32) -> (r: i32)
    requires
        0 < whole,
        part <= whole,
    ensures
        r == bar_x_spec(x0 as int, x1 as int, part as int, whole as int),
        x0 <= x1 ==> x0 <= r <= x1,
        x1 <= x0 ==> x1 <= r <= x0,
{
    let d: i64 = x1 as i64 - x0 as i64;
    if d >= 0 {
        let du: u64 = d as u64;
        assert(du * part <= du * whole) by (nonlinear_arith)
            requires part <= whole;
        assert(du * whole <= 4_294_967_295 * 4_294_967_295) by (nonlinear_arith)
            requires du <= 4_294_967_295, whole <= 4_294_967_295;
        let q: u64 = du * (part as u64) / (whole as u64);
        assert(q <= du) by (nonlinear_arith)
            requires q == (du * part) / (whole as int), part <= whole, 0 < whole;
        (x0 as i64 + q as i64) as i32
    } else {
        let du: u64 = (-d) as u64;
        assert(du * part <= du * whole) by (nonlinear_arith)
            requires part <= whole;
        assert(du * whole <= 4_294_967_295 * 4_294_967_295) by (nonlinear_arith)
            requires du <= 4_294_967_295, whole <= 4_294_967_295;
        let q: u64 = du * (part as u64) / (whole as u64);
        assert(q <= du) by (nonlinear_arith)
            requires q == (du * part) / (whole as int), part <= whole, 0 < whole;
        assert((x1 - x0) * part == -(du * part)) by (nonlinear_arith)
            requires du == -(x1 - x0);
        (x0 as i64 - q as i64) as i32
    }
}

/// The pixel span of a minute range `[s, e)` on a day bar from `x0` to `x1`
/// (the end is cut at the end of the day).
pub fn range_span(x0: i32, x1: i32, s: u32, e: u32) -> (r: (i32, i32))
    requires
        s <= DAY_MINUTES,
    ensures
        r.0 == bar_x_spec(x0 as int, x1 as int, s as int, DAY_MINUTES as int),
        r.1 == bar_x_spec(x0 as int, x1 as int, if e < DAY_MINUTES { e as int } else { DAY_MINUTES as int }, DAY_MINUTES as int),
{
    let end = if e < DAY_MINUTES { e } else { DAY_MINUTES };
    (bar_x(x0, x1, s, DAY_MINUTES), bar_x(x0, x1, end, DAY_MINUTES))
}

/// Packs a color as `0x00BBGGRR`.
pub fn rgb(r: u32, g: u32, b: u32) -> (c: u32)
    ensures
        c == r | (g << 8u32) | (b << 16u32),
        r < 256 && g < 256 && b < 256 ==> c == r + g * 256 + b * 65536,
{
    let c = r | (g << 8u32) | (b << 16u32);
    proof {
        if r < 256 && g < 256 && b < 256 {
            assert(r | (g << 8u32) | (b << 16u32) == r + g * 256 + b * 65536) by (bit_vector)
                requires
                    r < 256 && g < 256 && b < 256;
        }
    }
    c
}

/// Formats minutes since midnight as `HH:MM` (`24:00` at the end of the day).
pub fn fmt_hm(total: u32) -> (s: String)
    ensures
        s@ == fmt_hm_spec(total as nat),
{
    if total >= DAY_MINUTES {
        return String::from_str("24:00");
    }
    let mut s = String::new();
    push_pad2(&mut s, (total / 60) as u64);
    s.append(":");
    push_pad2(&mut s, (total % 60) as u64);
    proof {
        reveal_strlit(":");
    }
    s
}

/// The label of a day's available ranges (English).
pub fn describe_ranges(ranges: &[(u32, u32)]) -> (s: String)
    ensures
        s@ == describe_ranges_spec(Language::English, ranges@),
{
    describe_ranges_in(Language::English, ranges)
}

/// The label of a day's available ranges in language `l`.
pub fn describe_ranges_in(l: Language, ranges: &[(u32, u32)]) -> (s: String)
    ensures
        s@ == describe_ranges_spec(l, ranges@),
{
    if ranges.len() == 0 {
        return String::from_str(texts::blocked_all_day(l));
    }
    if ranges.len() == 1 && ranges[0].0 == 0 && ranges[0].1 == DAY_MINUTES {
        return String::from_str(texts::available_all_day(l));
    }
    let mut s = String::new();
    let mut i: usize = 0;
    while i < ranges.len()
        invariant
            i <= ranges@.len(),
            s@ == join_ranges(ranges@.take(i as int)),
        decreases ranges@.len() - i,
    {
        let (a, b) = ranges[i];
        proof {
            assert(ranges@.take(i + 1).drop_last() =~= ranges@.take(i as int));
            assert(ranges@.take(i + 1).last() == ranges@[i as int]);
        }
        if i != 0 {
            s.append(",  ");
        }
        let ta = fmt_hm(a);
        let tb = fmt_hm(b);
        s.append(ta.as_str());
        s.append(" - ");
        s.append(tb.as_str());
        i = i + 1;
        proof {
            assert(ranges@.take(1) =~= seq![ranges@[0]]);
        }
    }
    proof {
        assert(ranges@.take(ranges@.len() as int) =~= ranges@);
    }
    s
}

/// The grid with blocked and free minutes swapped.
pub open spec fn negate(grid: Seq<bool>) -> Seq<bool> {
    Seq::new(grid.len(), |m: int| !grid[m])
}

/// The blocked segments of a weekday, for drawing the red parts of its bar:
/// the maximal runs of blocked minutes, in order.
pub fn blocked_segments(cfg: &AppConfig, idx: usize) -> (segs: Vec<(u32, u32)>)
    requires
        cfg.wf(),
        idx <= usize::MAX - 6,
    ensures
        segs@ == free_runs(negate(schedule_grid(*cfg, idx as int))),
        maximal_free_runs(negate(schedule_grid(*cfg, idx as int)), segs@),
{
    let today = day_slots(cfg, idx);
    let prev = day_slots(cfg, (idx + 6) % 7);
    proof {
        lemma_pairs_match_schedule(*cfg, idx as int);
        assert((((idx + 6) % 7) as int) % 7 == (idx as int + 6) % 7);
    }
    let mut grid = [false; 1440];
    let mut m: u32 = 0;
    while m < DAY_MINUTES
        invariant
            m <= DAY_MINUTES,
            forall|k: int| 0 <= k < m ==> grid@[k] == !pairs_block(today@, prev@, k),
        decreases DAY_MINUTES - m,
    {
        let mut b = any_pair_blocks_today(today.as_slice(), m);
        if !b {
            b = any_pair_spills(prev.as_slice(), m);
        }
        grid[m as usize] = !b;
        m = m + 1;
    }
    proof {
        assert(grid@ =~= negate(pairs_grid(today@, prev@)));
    }
    allowed_ranges(&grid)
}

} // verus!
