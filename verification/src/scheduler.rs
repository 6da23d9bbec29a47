//! The block decision at a moment, the status texts, and the state machine
//! that decides when the firewall rule must change.

use vstd::prelude::*;
use crate::clock::{MAX_TIMESTAMP, MIN_TIMESTAMP, Moment, local_at, local_now};
use crate::config::{AppConfig, DaySchedule};
use crate::texts::{self, Language};
use crate::schedule::{blocked_at, covers_today, covers_spill, slots_block_today, slots_spill, lemma_active_slots_block};
use crate::text::{pad2, push_pad2};

verus! {

/// What blocks the current minute.
#[derive(Clone, Copy, Debug, PartialEq, Eq)]
pub enum BlockSource {
    /// A non-crossing window of today (e.g. 01:00-07:00).
    Today { index: usize, slot: usize },
    /// The late part of a crossing window of today (e.g. 23:30 of 23:30-06:30).
    TodayLate { index: usize, slot: usize },
    /// The previous day's crossing window spilling into this morning.
    YesterdaySpillover { yesterday: usize, slot: usize },
}

/// The first of `slots`, from position `i` on, that blocks minute `cur` of its own day.
pub open spec fn first_today_from(slots: Seq<(u32, u32, usize)>, cur: int, i: int) -> Option<(u32, u32, usize)>
    decreases slots.len() - i,
{
    if i < 0 || i >= slots.len() {
        None
    } else if covers_today(slots[i].0 as int, slots[i].1 as int, cur) {
        Some(slots[i])
    } else {
        first_today_from(slots, cur, i + 1)
    }
}

/// The first of the previous day's `slots`, from position `i` on, that spills over minute `cur`.
pub open spec fn first_spill_from(slots: Seq<(u32, u32, usize)>, cur: int, i: int) -> Option<(u32, u32, usize)>
    decreases slots.len() - i,
{
    if i < 0 || i >= slots.len() {
        None
    } else if covers_spill(slots[i].0 as int, slots[i].1 as int, cur) {
        Some(slots[i])
    } else {
        first_spill_from(slots, cur, i + 1)
    }
}

pub proof fn lemma_first_today_from(slots: Seq<(u32, u32, usize)>, cur: int, i: int)
    requires
        0 <= i <= slots.len(),
        forall|k: int| 0 <= k < i ==> !covers_today(#[trigger] slots[k].0 as int, slots[k].1 as int, cur),
    ensures
        first_today_from(slots, cur, i) is Some <==> slots_block_today(slots, cur),
        first_today_from(slots, cur, i) matches Some(t) ==> covers_today(t.0 as int, t.1 as int, cur) && slots.contains(t),
    decreases slots.len() - i,
{
    if i < slots.len() {
        if covers_today(slots[i].0 as int, slots[i].1 as int, cur) {
            assert(slots.contains(slots[i]));
        } else {
            lemma_first_today_from(slots, cur, i + 1);
        }
    }
}

pub proof fn lemma_first_spill_from(slots: Seq<(u32, u32, usize)>, cur: int, i: int)
    requires
        0 <= i <= slots.len(),
        forall|k: int| 0 <= k < i ==> !covers_spill(#[trigger] slots[k].0 as int, slots[k].1 as int, cur),
    ensures
        first_spill_from(slots, cur, i) is Some <==> slots_spill(slots, cur),
        first_spill_from(slots, cur, i) matches Some(t) ==> covers_spill(t.0 as int, t.1 as int, cur) && slots.contains(t),
    decreases slots.len() - i,
{
    if i < slots.len() {
        if covers_spill(slots[i].0 as int, slots[i].1 as int, cur) {
            assert(slots.contains(slots[i]));
        } else {
            lemma_first_spill_from(slots, cur, i + 1);
        }
    }
}

/// What blocks minute `cur` of weekday `wd`: today's slots first, in slot
/// order, then the previous day's crossing slots.
pub open spec fn block_source_spec(cfg: AppConfig, wd: int, cur: int) -> Option<BlockSource> {
    let index = wd % 7;
    let yesterday = (wd + 6) % 7;
    match first_today_from(cfg.weekly_schedule@[index].spec_active_slots(), cur, 0) {
        Some((s, e, slot)) => if s < e {
            Some(BlockSource::Today { index: index as usize, slot })
        } else {
            Some(BlockSource::TodayLate { index: index as usize, slot })
        },
        None => match first_spill_from(cfg.weekly_schedule@[yesterday].spec_active_slots(), cur, 0) {
            Some((_, _, slot)) => Some(BlockSource::YesterdaySpillover { yesterday: yesterday as usize, slot }),
            None => None,
        },
    }
}

/// The slot and day that `block_source_spec` names, as (day index, slot).
pub open spec fn source_day_slot(src: BlockSource) -> (usize, usize) {
    match src {
        BlockSource::Today { index, slot } => (index, slot),
        BlockSource::TodayLate { index, slot } => (index, slot),
        BlockSource::YesterdaySpillover { yesterday, slot } => (yesterday, slot),
    }
}

/// A block source names a day below 7 and one of that day's active slots.
pub proof fn lemma_block_source(cfg: AppConfig, wd: int, cur: int)
    requires
        cfg.wf(),
        0 <= wd,
    ensures
        block_source_spec(cfg, wd, cur) is Some <==> blocked_at(cfg, wd, cur),
        block_source_spec(cfg, wd, cur) matches Some(src) ==> {
            let (d, slot) = source_day_slot(src);
            &&& d < 7
            &&& slot < 2
            &&& cfg.weekly_schedule@[d as int].spec_slot(slot as int) is Some
        },
{
    let index = wd % 7;
    let yesterday = (wd + 6) % 7;
    let t = cfg.weekly_schedule@[index];
    let p = cfg.weekly_schedule@[yesterday];
    assert(t.fits());
    assert(p.fits());
    lemma_active_slots_block(t, cur);
    lemma_active_slots_block(p, cur);
    lemma_first_today_from(t.spec_active_slots(), cur, 0);
    lemma_first_spill_from(p.spec_active_slots(), cur, 0);
    lemma_active_slots_members(t);
    lemma_active_slots_members(p);
}

/// Each active slot is a slot in use, listed under its own index.
pub proof fn lemma_active_slots_members(d: DaySchedule)
    ensures
        forall|t: (u32, u32, usize)| #[trigger] d.spec_active_slots().contains(t) ==>
            t.2 < 2 && d.spec_slot(t.2 as int) == Some((t.0, t.1)),
{
    let sl = d.spec_active_slots();
    assert forall|t: (u32, u32, usize)| #[trigger] sl.contains(t) implies
        t.2 < 2 && d.spec_slot(t.2 as int) == Some((t.0, t.1)) by {
        let i = choose|i: int| 0 <= i < sl.len() && sl[i] == t;
        if d.spec_slot(0) is Some && d.spec_slot(1) is Some {
            assert(sl =~= seq![(d.slot_bounds(0).0, d.slot_bounds(0).1, 0usize), (d.slot_bounds(1).0, d.slot_bounds(1).1, 1usize)]);
        } else if d.spec_slot(0) is Some {
            assert(sl =~= seq![(d.slot_bounds(0).0, d.slot_bounds(0).1, 0usize)]);
        } else if d.spec_slot(1) is Some {
            assert(sl =~= seq![(d.slot_bounds(1).0, d.slot_bounds(1).1, 1usize)]);
        } else {
            assert(sl =~= Seq::<(u32, u32, usize)>::empty());
        }
    }
}


/// The next scheduled block's candidates of a day: its active slots as
/// (start, slot), keeping on the first day only those starting after `cur`.
pub open spec fn candidates_of(slots: Seq<(u32, u32, usize)>, cur: int, first_day: bool) -> Seq<(u32, usize)>
    decreases slots.len(),
{
    if slots.len() == 0 {
        Seq::empty()
    } else {
        let c = candidates_of(slots.drop_last(), cur, first_day);
        let t = slots.last();
        if !first_day || cur < t.0 { c.push((t.0, t.2)) } else { c }
    }
}

/// Lexicographic order on (start, slot).
pub open spec fn lex_le(a: (u32, usize), b: (u32, usize)) -> bool {
    a.0 < b.0 || (a.0 == b.0 && a.1 <= b.1)
}

/// The smallest candidate in lexicographic order (the first after sorting).
pub open spec fn min_candidate(c: Seq<(u32, usize)>) -> (u32, usize)
    decreases c.len(),
{
    if c.len() <= 1 {
        c[0]
    } else {
        let m = min_candidate(c.drop_last());
        if lex_le(m, c.last()) { m } else { c.last() }
    }
}

/// The next block start, searching `da` to 7 days ahead of weekday `idx`:
/// (day index, start hour, start minute, days ahead, slot).
pub open spec fn next_block_from(cfg: AppConfig, idx: int, cur: int, da: nat) -> Option<(usize, u32, u32, usize, usize)>
    decreases 8 - da,
{
    if da >= 8 {
        None
    } else {
        let di = (idx + da) % 7;
        let day = cfg.weekly_schedule@[di];
        let c = candidates_of(day.spec_active_slots(), cur, da == 0);
        if c.len() == 0 {
            next_block_from(cfg, idx, cur, da + 1)
        } else {
            let slot = min_candidate(c).1;
            let (sh, sm) = day.spec_slot_start_hm(slot as int);
            Some((di as usize, sh, sm, da as usize, slot))
        }
    }
}

/// The end of the block active at minute `cur` of weekday `wd`:
/// (end hour, end minute, source day index, slot).
pub open spec fn current_block_end_spec(cfg: AppConfig, wd: int, cur: int) -> Option<(u32, u32, usize, usize)> {
    match block_source_spec(cfg, wd, cur) {
        Some(src) => {
            let (d, slot) = source_day_slot(src);
            let (eh, em) = cfg.weekly_schedule@[d as int].spec_slot_end_hm(slot as int);
            Some((eh, em, d, slot))
        },
        None => None,
    }
}

/// The status texts (summary, tooltip) of the schedule at minute `cur` of
/// weekday `wd`: the active block and when it ends, or the next block.
pub open spec fn describe_spec(l: Language, cfg: AppConfig, wd: int, cur: int) -> (Seq<char>, Seq<char>) {
    match current_block_end_spec(cfg, wd, cur) {
        Some((eh, em, d, slot)) => {
            let src = cfg.weekly_schedule@[d as int];
            let name = texts::weekday_short_spec(l, d as int);
            let (sh, sm) = src.spec_slot_start_hm(slot as int);
            let active = format_slot_spec(sh as nat, sm as nat, eh as nat, em as nat);
            let end = format_hm_spec(eh as nat, em as nat);
            (
                texts::blocked_summary_spec(l, name, active, format_day_slots_spec(l, src), end),
                texts::blocked_tooltip_spec(l, name, format_day_slots_spec(l, src), end),
            )
        },
        None => match next_block_from(cfg, wd, cur, 0) {
            Some((ni, _, _, _, _)) => {
                let next = cfg.weekly_schedule@[ni as int];
                let today = cfg.weekly_schedule@[wd];
                (
                    texts::allowed_summary_spec(
                        l,
                        texts::weekday_full_spec(l, wd),
                        format_day_slots_spec(l, today),
                        texts::weekday_short_spec(l, ni as int),
                        format_day_slots_spec(l, next),
                    ),
                    texts::allowed_tooltip_spec(
                        l,
                        texts::weekday_full_spec(l, wd),
                        texts::weekday_short_spec(l, ni as int),
                        format_day_slots_spec(l, next),
                    ),
                )
            },
            None => (texts::allowed_none_summary_spec(l)@, texts::allowed_none_tooltip_spec(l)@),
        },
    }
}

/// A temporary allow that has not ended at `now`.
pub open spec fn unexpired(temp: Option<Moment>, now: Moment) -> Option<Moment> {
    match temp {
        Some(u) => if now.instant() >= u.instant() { None } else { Some(u) },
        None => None,
    }
}

/// Whole minutes left until `until`, rounded up (from whole seconds left).
pub open spec fn remaining_minutes(until: Moment, now: Moment) -> int {
    ((until.instant() - now.instant()) / 1_000_000_000 + 59) / 60
}

/// The desired status: a manual override wins, then a temporary allow,
/// then the schedule. (blocked, type, summary, tooltip).
pub open spec fn desired_status(l: Language, cfg: AppConfig, manual: Option<bool>, temp: Option<Moment>, now: Moment)
    -> (bool, StatusType, Seq<char>, Seq<char>)
{
    match manual {
        Some(true) => (true, StatusType::BlockedManual, texts::manual_blocked_summary_spec(l)@, texts::manual_blocked_tooltip_spec(l)@),
        Some(false) => (false, StatusType::AllowedManual, texts::manual_allowed_summary_spec(l)@, texts::manual_allowed_tooltip_spec(l)@),
        None => match temp {
            Some(u) => {
                let r = remaining_minutes(u, now);
                (
                    false,
                    StatusType::AllowedTemporary,
                    texts::temp_allow_summary_spec(l, r),
                    texts::temp_allow_tooltip_spec(l, r, format_hm_spec(u.hour as nat, u.minute as nat)),
                )
            },
            None => {
                let b = blocked_at(cfg, now.weekday as int, now.minute_of_day());
                let (summary, tooltip) = describe_spec(l, cfg, now.weekday as int, now.minute_of_day());
                (b, if b { StatusType::BlockedSchedule } else { StatusType::AllowedNormal }, summary, tooltip)
            },
        },
    }
}

/// At least 15 seconds (monotonic) have passed since the last attempt to
/// change the firewall rule, or there was none: the pace of retries after a
/// failed change.
pub open spec fn retry_ready(last: Option<u64>, mono_ms: u64) -> bool {
    match last {
        Some(t) => mono_ms >= t && mono_ms - t >= 15_000,
        None => true,
    }
}

/// The next block start names a day below 7.
pub proof fn lemma_next_block_index(cfg: AppConfig, idx: int, cur: int, da: nat)
    requires
        0 <= idx,
    ensures
        next_block_from(cfg, idx, cur, da) matches Some((di, _, _, d, _)) ==> di < 7 && d < 8,
    decreases 8 - da,
{
    if da < 8 {
        lemma_next_block_index(cfg, idx, cur, da + 1);
    }
}

/// `{:02}:{:02}-{:02}:{:02}` of a slot's start and end.
pub open spec fn format_slot_spec(sh: nat, sm: nat, eh: nat, em: nat) -> Seq<char> {
    pad2(sh) + seq![':'] + pad2(sm) + seq!['-'] + pad2(eh) + seq![':'] + pad2(em)
}

/// `{:02}:{:02}` of an hour and minute.
pub open spec fn format_hm_spec(h: nat, m: nat) -> Seq<char> {
    pad2(h) + seq![':'] + pad2(m)
}

/// A day's slots in use, formatted and joined with `", "`, or `none`.
pub open spec fn format_day_slots_spec(l: Language, d: DaySchedule) -> Seq<char> {
    let a = format_slot_spec(d.start_hour as nat, d.start_minute as nat, d.end_hour as nat, d.end_minute as nat);
    let b = format_slot_spec(d.start2_hour as nat, d.start2_minute as nat, d.end2_hour as nat, d.end2_minute as nat);
    if d.spec_slot(0) is Some && d.spec_slot(1) is Some {
        a + seq![',', ' '] + b
    } else if d.spec_slot(0) is Some {
        a
    } else if d.spec_slot(1) is Some {
        b
    } else {
        texts::slots_none_spec(l)@
    }
}

/// Formats a slot as `HH:MM-HH:MM`.
pub fn format_slot(sh: u32, sm: u32, eh: u32, em: u32) -> (s: String)
    ensures
        s@ == format_slot_spec(sh as nat, sm as nat, eh as nat, em as nat),
{
    let mut s = String::new();
    push_pad2(&mut s, sh as u64);
    s.append(":");
    push_pad2(&mut s, sm as u64);
    s.append("-");
    push_pad2(&mut s, eh as u64);
    s.append(":");
    push_pad2(&mut s, em as u64);
    proof {
        reveal_strlit(":");
        reveal_strlit("-");
    }
    s
}

/// Formats an hour and minute as `HH:MM`.
pub fn format_hm(h: u32, m: u32) -> (s: String)
    ensures
        s@ == format_hm_spec(h as nat, m as nat),
{
    let mut s = String::new();
    push_pad2(&mut s, h as u64);
    s.append(":");
    push_pad2(&mut s, m as u64);
    proof {
        reveal_strlit(":");
    }
    s
}

/// A day's slots in use, e.g. `00:00-07:00, 22:00-23:00`, or `none` (English).
pub fn format_day_slots(day: &DaySchedule) -> (s: String)
    requires
        day.fits(),
    ensures
        s@ == format_day_slots_spec(Language::English, *day),
{
    format_day_slots_in(Language::English, day)
}

/// A day's slots in use, or the word for none, in language `l`.
pub fn format_day_slots_in(l: Language, day: &DaySchedule) -> (s: String)
    requires
        day.fits(),
    ensures
        s@ == format_day_slots_spec(l, *day),
{
    let one = day.slot1().is_some();
    let two = day.slot2().is_some();
    if one && two {
        let mut s = format_slot(day.start_hour, day.start_minute, day.end_hour, day.end_minute);
        let b = format_slot(day.start2_hour, day.start2_minute, day.end2_hour, day.end2_minute);
        s.append(", ");
        s.append(b.as_str());
        proof {
            reveal_strlit(", ");
        }
        s
    } else if one {
        format_slot(day.start_hour, day.start_minute, day.end_hour, day.end_minute)
    } else if two {
        format_slot(day.start2_hour, day.start2_minute, day.end2_hour, day.end2_minute)
    } else {
        String::from_str(texts::slots_none(l))
    }
}

/// What the current status is.
#[derive(Clone, Copy, Debug, PartialEq, Eq)]
pub enum StatusType {
    AllowedNormal,
    AllowedTemporary,
    AllowedManual,
    BlockedSchedule,
    BlockedManual,
}

/// The evaluated status: whether the internet is blocked, why, and the texts
/// for the settings window and the tray tooltip.
#[derive(Clone, Debug)]
pub struct StatusDetail {
    pub is_blocked: bool,
    pub status_type: StatusType,
    pub summary: String,
    pub tooltip: String,
}

/// The scheduler's state: the configuration, a temporary allow, a manual
/// override and what was last applied to the firewall.
pub struct AppState {
    pub config: AppConfig,
    /// The language of the status texts.
    pub language: Language,
    pub temp_allow_until: Option<Moment>,
    pub manual_override: Option<bool>,
    pub last_applied_blocked: Option<bool>,
    /// Monotonic milliseconds of the last attempt to change the firewall rule.
    pub last_apply_attempt: Option<u64>,
    /// Whether the last attempt to change the firewall rule failed.
    pub apply_failed: bool,
}

impl AppState {
    /// A fresh state: nothing temporary, no override, nothing applied yet.
    pub fn new(config: AppConfig) -> (st: Self)
        ensures
            st.config == config,
            st.language == Language::English,
            st.temp_allow_until is None,
            st.manual_override is None,
            st.last_applied_blocked is None,
            st.last_apply_attempt is None,
            !st.apply_failed,
    {
        AppState {
            config,
            language: Language::English,
            temp_allow_until: None,
            manual_override: None,
            last_applied_blocked: None,
            last_apply_attempt: None,
            apply_failed: false,
        }
    }

    /// Cancels a temporary allow.
    pub fn cancel_temporary_allow(&mut self)
        ensures
            final(self).temp_allow_until is None,
            final(self).config == old(self).config,
            final(self).language == old(self).language,
            final(self).manual_override == old(self).manual_override,
            final(self).last_applied_blocked == old(self).last_applied_blocked,
            final(self).last_apply_attempt == old(self).last_apply_attempt,
            final(self).apply_failed == old(self).apply_failed,
    {
        self.temp_allow_until = None;
    }

    /// Forces the opposite of what was last applied (nothing applied yet
    /// counts as unblocked, so the override blocks) and ends a temporary allow.
    pub fn toggle_manual_override(&mut self)
        ensures
            final(self).manual_override == Some(!(old(self).last_applied_blocked == Some(true))),
            final(self).temp_allow_until is None,
            final(self).config == old(self).config,
            final(self).language == old(self).language,
            final(self).last_applied_blocked == old(self).last_applied_blocked,
            final(self).last_apply_attempt == old(self).last_apply_attempt,
            final(self).apply_failed == old(self).apply_failed,
    {
        let currently_blocked = match self.last_applied_blocked {
            Some(b) => b,
            None => false,
        };
        self.manual_override = Some(!currently_blocked);
        self.temp_allow_until = None;
    }

    /// Returns to the schedule.
    pub fn clear_manual_override(&mut self)
        ensures
            final(self).manual_override is None,
            final(self).config == old(self).config,
            final(self).language == old(self).language,
            final(self).temp_allow_until == old(self).temp_allow_until,
            final(self).last_applied_blocked == old(self).last_applied_blocked,
            final(self).last_apply_attempt == old(self).last_apply_attempt,
            final(self).apply_failed == old(self).apply_failed,
    {
        self.manual_override = None;
    }

    /// Allows the internet until `minutes` after `now` and clears a manual
    /// override. The end is the local moment `minutes * 60` seconds after
    /// `now`; when that instant cannot be represented there is no temporary
    /// allow afterwards.
    pub fn set_temporary_allow_at(&mut self, now: Moment, minutes: i64)
        requires
            now.wf(),
            -153_722_867_280_912 <= minutes <= 153_722_867_280_912,
        ensures
            final(self).temp_allow_until matches Some(u) ==> u.wf() && u.secs == now.secs + minutes * 60 && u.nanos == now.nanos,
            (MIN_TIMESTAMP <= now.secs + minutes * 60 <= MAX_TIMESTAMP && now.nanos < 1_000_000_000)
                ==> final(self).temp_allow_until is Some,
            final(self).manual_override is None,
            final(self).config == old(self).config,
            final(self).language == old(self).language,
            final(self).last_applied_blocked == old(self).last_applied_blocked,
            final(self).last_apply_attempt == old(self).last_apply_attempt,
            final(self).apply_failed == old(self).apply_failed,
    {
        let until = local_at(now.secs + minutes * 60, now.nanos);
        self.temp_allow_until = until;
        self.manual_override = None;
    }

    /// Allows the internet for `minutes` from the current local time and
    /// clears a manual override, as `set_temporary_allow_at` does at the
    /// moment read from the clock; returns that moment. When the clock cannot
    /// be read as a local moment (`None`) nothing changes.
    pub fn set_temporary_allow(&mut self, minutes: i64) -> (r: Option<Moment>)
        requires
            -153_722_867_280_912 <= minutes <= 153_722_867_280_912,
        ensures
            match r {
                Some(now) => {
                    &&& now.wf()
                    &&& 0 <= now.secs <= MAX_TIMESTAMP
                    &&& final(self).temp_allow_until matches Some(u) ==> u.wf() && u.secs == now.secs + minutes * 60 && u.nanos == now.nanos
                    &&& MIN_TIMESTAMP <= now.secs + minutes * 60 <= MAX_TIMESTAMP ==> final(self).temp_allow_until is Some
                    &&& final(self).manual_override is None
                },
                None => {
                    &&& final(self).temp_allow_until == old(self).temp_allow_until
                    &&& final(self).manual_override == old(self).manual_override
                },
            },
            final(self).config == old(self).config,
            final(self).language == old(self).language,
            final(self).last_applied_blocked == old(self).last_applied_blocked,
            final(self).last_apply_attempt == old(self).last_apply_attempt,
            final(self).apply_failed == old(self).apply_failed,
    {
        let now = local_now();
        if let Some(n) = now {
            self.set_temporary_allow_at(n, minutes);
        }
        now
    }

    /// What blocks the minute of `now`, if anything.
    #[verifier::loop_isolation(false)]
    pub fn block_source_at(&self, now: Moment) -> (r: Option<BlockSource>)
        requires
            self.config.wf(),
            now.wf(),
        ensures
            r == block_source_spec(self.config, now.weekday as int, now.minute_of_day()),
    {
        let idx = now.weekday as usize;
        let cur = now.hour * 60 + now.minute;
        proof {
            assert(self.config.weekly_schedule@[(idx % 7) as int].fits());
            assert(self.config.weekly_schedule@[((idx + 6) % 7) as int].fits());
        }
        let today = &self.config.weekly_schedule[idx % 7];
        let slots = today.active_slots();
        let mut i: usize = 0;
        while i < slots.len()
            invariant
                i <= slots@.len(),
                slots@ == today.spec_active_slots(),
                first_today_from(slots@, cur as int, 0) == first_today_from(slots@, cur as int, i as int),
            decreases slots@.len() - i,
        {
            let (start, end, slot) = slots[i];
            if start < end {
                if cur >= start && cur < end {
                    proof { assert(first_today_from(slots@, cur as int, i as int) == Some(slots@[i as int])); }
                    return Some(BlockSource::Today { index: idx % 7, slot });
                }
            } else if cur >= start && start != end {
                proof { assert(first_today_from(slots@, cur as int, i as int) == Some(slots@[i as int])); }
                return Some(BlockSource::TodayLate { index: idx % 7, slot });
            }
            i = i + 1;
        }
        proof { assert(first_today_from(slots@, cur as int, i as int) is None); }
        let yesterday = (idx + 6) % 7;
        let prev = &self.config.weekly_schedule[yesterday];
        let pslots = prev.active_slots();
        let mut j: usize = 0;
        while j < pslots.len()
            invariant
                j <= pslots@.len(),
                pslots@ == prev.spec_active_slots(),
                first_spill_from(pslots@, cur as int, 0) == first_spill_from(pslots@, cur as int, j as int),
            decreases pslots@.len() - j,
        {
            let (start, end, slot) = pslots[j];
            if start > end && cur < end {
                proof { assert(first_spill_from(pslots@, cur as int, j as int) == Some(pslots@[j as int])); }
                return Some(BlockSource::YesterdaySpillover { yesterday, slot });
            }
            j = j + 1;
        }
        proof { assert(first_spill_from(pslots@, cur as int, j as int) is None); }
        None
    }

    /// End of the currently active block: (hour, minute, source day index, slot).
    pub fn current_block_end(&self, now: Moment) -> (r: Option<(u32, u32, usize, usize)>)
        requires
            self.config.wf(),
            now.wf(),
        ensures
            r == current_block_end_spec(self.config, now.weekday as int, now.minute_of_day()),
            r matches Some((_, _, d, slot)) ==> d < 7 && slot < 2,
    {
        proof {
            lemma_block_source(self.config, now.weekday as int, now.minute_of_day());
        }
        match self.block_source_at(now) {
            Some(BlockSource::Today { index, slot }) | Some(BlockSource::TodayLate { index, slot }) => {
                let day = &self.config.weekly_schedule[index];
                let (eh, em) = day.slot_end_hm(slot);
                Some((eh, em, index, slot))
            },
            Some(BlockSource::YesterdaySpillover { yesterday, slot }) => {
                let day = &self.config.weekly_schedule[yesterday];
                let (eh, em) = day.slot_end_hm(slot);
                Some((eh, em, yesterday, slot))
            },
            None => None,
        }
    }

    /// Next block start within 7 days: (day index, hour, minute, days ahead, slot).
    pub fn next_block_start(&self, now: Moment) -> (r: Option<(usize, u32, u32, usize, usize)>)
        requires
            self.config.wf(),
            now.wf(),
        ensures
            r == next_block_from(self.config, now.weekday as int, now.minute_of_day(), 0),
    {
        let idx = now.weekday as usize;
        let cur = now.hour * 60 + now.minute;
        let mut days_ahead: usize = 0;
        while days_ahead < 8
            invariant
                days_ahead <= 8,
                idx == now.weekday,
                idx < 7,
                cur == now.minute_of_day(),
                self.config.wf(),
                next_block_from(self.config, idx as int, cur as int, 0)
                    == next_block_from(self.config, idx as int, cur as int, days_ahead as nat),
            decreases 8 - days_ahead,
        {
            let day_idx = (idx + days_ahead) % 7;
            proof {
                assert(self.config.weekly_schedule@[day_idx as int].fits());
            }
            let day = &self.config.weekly_schedule[day_idx];
            let slots = day.active_slots();
            let mut candidates: Vec<(u32, usize)> = Vec::with_capacity(2);
            let mut i: usize = 0;
            while i < slots.len()
                invariant
                    i <= slots@.len(),
                    candidates@ == candidates_of(slots@.take(i as int), cur as int, days_ahead == 0),
                decreases slots@.len() - i,
            {
                let (start, _end, slot) = slots[i];
                proof {
                    assert(slots@.take(i + 1).drop_last() =~= slots@.take(i as int));
                }
                if days_ahead == 0 {
                    if cur < start {
                        candidates.push((start, slot));
                    }
                } else {
                    candidates.push((start, slot));
                }
                i = i + 1;
            }
            proof {
                assert(slots@.take(slots@.len() as int) =~= slots@);
            }
            if candidates.len() == 0 {
                days_ahead = days_ahead + 1;
                continue;
            }
            let mut best: (u32, usize) = candidates[0];
            let mut k: usize = 1;
            while k < candidates.len()
                invariant
                    1 <= k <= candidates@.len(),
                    best == min_candidate(candidates@.take(k as int)),
                decreases candidates@.len() - k,
            {
                let c = candidates[k];
                proof {
                    assert(candidates@.take(k + 1).drop_last() =~= candidates@.take(k as int));
                }
                if !(best.0 < c.0 || (best.0 == c.0 && best.1 <= c.1)) {
                    best = c;
                }
                k = k + 1;
            }
            proof {
                assert(candidates@.take(candidates@.len() as int) =~= candidates@);
            }
            let (_start, slot) = best;
            let (sh, sm) = day.slot_start_hm(slot);
            return Some((day_idx, sh, sm, days_ahead, slot));
        }
        None
    }

    /// The status texts (summary, tooltip) of the schedule at `now`.
    pub fn describe_schedule(&self, now: Moment) -> (r: (String, String))
        requires
            self.config.wf(),
            now.wf(),
        ensures
            (r.0@, r.1@) == describe_spec(self.language, self.config, now.weekday as int, now.minute_of_day()),
    {
        let idx = now.weekday as usize;
        if let Some((end_h, end_m, src_idx, slot)) = self.current_block_end(now) {
            proof {
                assert(self.config.weekly_schedule@[src_idx as int].fits());
            }
            let src = &self.config.weekly_schedule[src_idx];
            let l = self.language;
            let src_name = texts::weekday_short(l, src_idx);
            let (sh, sm) = src.slot_start_hm(slot);
            let active = format_slot(sh, sm, end_h, end_m);
            let end = format_hm(end_h, end_m);
            let all = format_day_slots_in(l, src);
            let summary = texts::blocked_summary(l, src_name, active.as_str(), all.as_str(), end.as_str());
            let tooltip = texts::blocked_tooltip(l, src_name, all.as_str(), end.as_str());
            return (summary, tooltip);
        }
        match self.next_block_start(now) {
            Some((next_idx, _sh, _sm, _days_ahead, _slot)) => {
                proof {
                    lemma_next_block_index(self.config, idx as int, now.minute_of_day(), 0);
                    assert(self.config.weekly_schedule@[next_idx as int].fits());
                    assert(self.config.weekly_schedule@[idx as int].fits());
                }
                let next = &self.config.weekly_schedule[next_idx];
                let today = &self.config.weekly_schedule[idx];
                let l = self.language;
                let today_name = texts::weekday_full(l, idx);
                let next_name = texts::weekday_short(l, next_idx);
                let today_slots = format_day_slots_in(l, today);
                let next_slots = format_day_slots_in(l, next);
                let summary = texts::allowed_summary(l, today_name, today_slots.as_str(), next_name, next_slots.as_str());
                let tooltip = texts::allowed_tooltip(l, today_name, next_name, next_slots.as_str());
                (summary, tooltip)
            },
            None => (
                String::from_str(texts::allowed_none_summary(self.language)),
                String::from_str(texts::allowed_none_tooltip(self.language)),
            ),
        }
    }

    /// The state's own invariant: a valid configuration and a valid end of a
    /// temporary allow.
    pub open spec fn wf(&self) -> bool {
        &&& self.config.wf()
        &&& self.temp_allow_until matches Some(u) ==> u.wf()
    }

    /// First half of a sync at `now` (monotonic clock `mono_ms`): ends an
    /// expired temporary allow, evaluates the desired status and says whether
    /// the firewall rule must be changed now (`true`: to `status.is_blocked`):
    /// whenever the desired state differs from the one last applied, except
    /// that after a failed change the next try waits 15 seconds. The caller
    /// changes the rule and reports back with `complete_sync`.
    pub fn plan_sync(&mut self, now: Moment, mono_ms: u64) -> (r: (StatusDetail, bool))
        requires
            old(self).wf(),
            now.wf(),
        ensures
            final(self).temp_allow_until == unexpired(old(self).temp_allow_until, now),
            (r.0.is_blocked, r.0.status_type, r.0.summary@, r.0.tooltip@)
                == desired_status(old(self).language, old(self).config, old(self).manual_override, unexpired(old(self).temp_allow_until, now), now),
            r.1 == (old(self).last_applied_blocked != Some(r.0.is_blocked)
                && (!old(self).apply_failed || retry_ready(old(self).last_apply_attempt, mono_ms))),
            final(self).apply_failed == (old(self).apply_failed && old(self).last_applied_blocked != Some(r.0.is_blocked)),
            final(self).config == old(self).config,
            final(self).language == old(self).language,
            final(self).manual_override == old(self).manual_override,
            final(self).last_applied_blocked == old(self).last_applied_blocked,
            final(self).last_apply_attempt == old(self).last_apply_attempt,
            final(self).wf(),
    {
        if let Some(until) = self.temp_allow_until {
            if now.secs > until.secs || (now.secs == until.secs && now.nanos >= until.nanos) {
                self.temp_allow_until = None;
            }
        }
        let (should_block, status_type, summary, tooltip) = if let Some(forced_block) = self.manual_override {
            if forced_block {
                (
                    true,
                    StatusType::BlockedManual,
                    String::from_str(texts::manual_blocked_summary(self.language)),
                    String::from_str(texts::manual_blocked_tooltip(self.language)),
                )
            } else {
                (
                    false,
                    StatusType::AllowedManual,
                    String::from_str(texts::manual_allowed_summary(self.language)),
                    String::from_str(texts::manual_allowed_tooltip(self.language)),
                )
            }
        } else if let Some(until) = self.temp_allow_until {
            proof {
                assert(until.wf());
                assert(until.instant() > now.instant());
            }
            let diff: i128 = (until.secs as i128 - now.secs as i128) * 1_000_000_000
                + (until.nanos as i128 - now.nanos as i128);
            let rem_secs: i64 = ((diff as u128) / 1_000_000_000) as i64;
            let rem_mins: i64 = (rem_secs + 59) / 60;
            let until_text = format_hm(until.hour, until.minute);
            (
                false,
                StatusType::AllowedTemporary,
                texts::temp_allow_summary(self.language, rem_mins),
                texts::temp_allow_tooltip(self.language, rem_mins, until_text.as_str()),
            )
        } else {
            let in_schedule = self.is_time_in_schedule(now);
            let (summary, tooltip) = self.describe_schedule(now);
            if in_schedule {
                (true, StatusType::BlockedSchedule, summary, tooltip)
            } else {
                (false, StatusType::AllowedNormal, summary, tooltip)
            }
        };
        let apply = if self.last_applied_blocked != Some(should_block) {
            if !self.apply_failed {
                true
            } else {
                match self.last_apply_attempt {
                    Some(attempt) => mono_ms >= attempt && mono_ms - attempt >= 15_000,
                    None => true,
                }
            }
        } else {
            self.apply_failed = false;
            false
        };
        (StatusDetail { is_blocked: should_block, status_type, summary, tooltip }, apply)
    }

    /// Second half of a sync: records the outcome of changing the firewall
    /// rule (`Some(true)` applied, `Some(false)` failed, `None` not tried at
    /// monotonic time `mono_ms`) and returns the status, with a warning
    /// appended to its texts while the last change failed.
    pub fn complete_sync(&mut self, status: StatusDetail, applied: Option<bool>, mono_ms: u64) -> (r: StatusDetail)
        ensures
            final(self).last_apply_attempt == (if applied is Some { Some(mono_ms) } else { old(self).last_apply_attempt }),
            final(self).last_applied_blocked == (if applied == Some(true) { Some(status.is_blocked) } else { old(self).last_applied_blocked }),
            final(self).apply_failed == (match applied { Some(ok) => !ok, None => old(self).apply_failed }),
            r.is_blocked == status.is_blocked,
            r.status_type == status.status_type,
            r.summary@ == (if final(self).apply_failed { status.summary@ + texts::firewall_fail_summary_suffix_spec(old(self).language)@ } else { status.summary@ }),
            r.tooltip@ == (if final(self).apply_failed { status.tooltip@ + texts::firewall_fail_tooltip_suffix_spec(old(self).language)@ } else { status.tooltip@ }),
            final(self).config == old(self).config,
            final(self).language == old(self).language,
            final(self).temp_allow_until == old(self).temp_allow_until,
            final(self).manual_override == old(self).manual_override,
    {
        if let Some(ok) = applied {
            self.last_apply_attempt = Some(mono_ms);
            if ok {
                self.last_applied_blocked = Some(status.is_blocked);
                self.apply_failed = false;
            } else {
                self.apply_failed = true;
            }
        }
        let StatusDetail { is_blocked, status_type, mut summary, mut tooltip } = status;
        if self.apply_failed {
            summary.append(texts::firewall_fail_summary_suffix(self.language));
            tooltip.append(texts::firewall_fail_tooltip_suffix(self.language));
        }
        StatusDetail { is_blocked, status_type, summary, tooltip }
    }

    /// Whether the minute of `now` falls into the block schedule.
    pub fn is_time_in_schedule(&self, now: Moment) -> (r: bool)
        requires
            self.config.wf(),
            now.wf(),
        ensures
            r == blocked_at(self.config, now.weekday as int, now.minute_of_day()),
    {
        proof {
            lemma_block_source(self.config, now.weekday as int, now.minute_of_day());
        }
        self.block_source_at(now).is_some()
    }
}

} // verus!
