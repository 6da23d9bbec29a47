//! The application configuration: the weekly block schedule, the legacy
//! single window, the admin password hash and the autostart flag.

use vstd::prelude::*;
use crate::password::{hash_password, generate_salt, password_hash_spec, salt_spec};

verus! {

/// The salt of the default configuration.
pub const DEFAULT_SALT: &'static str = "kid_internet_lock_salt_v1";

/// The admin password of the default configuration.
pub const DEFAULT_PASSWORD: &'static str = "1q2w3e";

/// Minutes since midnight of an hour and minute.
pub open spec fn hm_minutes(h: u32, m: u32) -> int {
    h * 60 + m
}

/// One weekday of the block schedule: two block slots, each from a start
/// time to an end time. A slot whose start equals its end is unused; a slot
/// whose start is after its end crosses midnight into the next morning; an
/// unchecked (`enabled == false`) day has no active slot.
#[derive(Clone, Copy, Debug, PartialEq, Eq)]
pub struct DaySchedule {
    pub enabled: bool,
    pub start_hour: u32,
    pub start_minute: u32,
    pub end_hour: u32,
    pub end_minute: u32,
    pub start2_hour: u32,
    pub start2_minute: u32,
    pub end2_hour: u32,
    pub end2_minute: u32,
}

impl DaySchedule {
    /// Every time of the day, as minutes since midnight, fits in a `u32`.
    pub open spec fn fits(self) -> bool {
        &&& hm_minutes(self.start_hour, self.start_minute) <= u32::MAX
        &&& hm_minutes(self.end_hour, self.end_minute) <= u32::MAX
        &&& hm_minutes(self.start2_hour, self.start2_minute) <= u32::MAX
        &&& hm_minutes(self.end2_hour, self.end2_minute) <= u32::MAX
    }

    /// Start and end of slot `slot` (0 or 1) in minutes since midnight.
    pub open spec fn slot_bounds(self, slot: int) -> (u32, u32) {
        if slot == 0 {
            (hm_minutes(self.start_hour, self.start_minute) as u32, hm_minutes(self.end_hour, self.end_minute) as u32)
        } else {
            (hm_minutes(self.start2_hour, self.start2_minute) as u32, hm_minutes(self.end2_hour, self.end2_minute) as u32)
        }
    }

    /// Slot `slot` as (start, end) minutes when it is in use on a checked day.
    pub open spec fn spec_slot(self, slot: int) -> Option<(u32, u32)> {
        let (s, e) = self.slot_bounds(slot);
        if self.enabled && s != e { Some((s, e)) } else { None }
    }

    /// The slots in use, in slot order, each as (start, end, slot index).
    pub open spec fn spec_active_slots(self) -> Seq<(u32, u32, usize)> {
        let first: Seq<(u32, u32, usize)> = match self.spec_slot(0) {
            Some((s, e)) => seq![(s, e, 0usize)],
            None => Seq::empty(),
        };
        let second: Seq<(u32, u32, usize)> = match self.spec_slot(1) {
            Some((s, e)) => seq![(s, e, 1usize)],
            None => Seq::empty(),
        };
        first + second
    }

    /// The default day: checked, blocked from 00:00 to 07:00, second slot unused.
    pub open spec fn spec_default() -> DaySchedule {
        DaySchedule {
            enabled: true,
            start_hour: 0,
            start_minute: 0,
            end_hour: 7,
            end_minute: 0,
            start2_hour: 0,
            start2_minute: 0,
            end2_hour: 0,
            end2_minute: 0,
        }
    }

    /// A checked day with one block window, second slot unused.
    pub open spec fn from_window_spec(sh: u32, sm: u32, eh: u32, em: u32) -> DaySchedule {
        DaySchedule {
            enabled: true,
            start_hour: sh,
            start_minute: sm,
            end_hour: eh,
            end_minute: em,
            start2_hour: 0,
            start2_minute: 0,
            end2_hour: 0,
            end2_minute: 0,
        }
    }

    /// A checked day with one block window, second slot unused.
    pub fn from_window(sh: u32, sm: u32, eh: u32, em: u32) -> (d: DaySchedule)
        ensures
            d == DaySchedule::from_window_spec(sh, sm, eh, em),
    {
        DaySchedule {
            enabled: true,
            start_hour: sh,
            start_minute: sm,
            end_hour: eh,
            end_minute: em,
            start2_hour: 0,
            start2_minute: 0,
            end2_hour: 0,
            end2_minute: 0,
        }
    }

    /// Slot 1 as (start, end) minutes, when in use.
    pub fn slot1(&self) -> (r: Option<(u32, u32)>)
        requires
            self.fits(),
        ensures
            r == self.spec_slot(0),
    {
        let s = self.start_hour * 60 + self.start_minute;
        let e = self.end_hour * 60 + self.end_minute;
        if self.enabled && s != e { Some((s, e)) } else { None }
    }

    /// Slot 2 as (start, end) minutes, when in use.
    pub fn slot2(&self) -> (r: Option<(u32, u32)>)
        requires
            self.fits(),
        ensures
            r == self.spec_slot(1),
    {
        let s = self.start2_hour * 60 + self.start2_minute;
        let e = self.end2_hour * 60 + self.end2_minute;
        if self.enabled && s != e { Some((s, e)) } else { None }
    }

    /// The slots in use, as (start, end, slot index) in slot order.
    pub fn active_slots(&self) -> (r: Vec<(u32, u32, usize)>)
        requires
            self.fits(),
        ensures
            r@ == self.spec_active_slots(),
    {
        let mut v: Vec<(u32, u32, usize)> = Vec::new();
        if let Some((s, e)) = self.slot1() {
            v.push((s, e, 0));
        }
        if let Some((s, e)) = self.slot2() {
            v.push((s, e, 1));
        }
        proof {
            assert(v@ =~= self.spec_active_slots());
        }
        v
    }

    /// Start (hour, minute) of slot `slot`: slot 0 is the first, any other the second.
    pub open spec fn spec_slot_start_hm(self, slot: int) -> (u32, u32) {
        if slot == 0 { (self.start_hour, self.start_minute) } else { (self.start2_hour, self.start2_minute) }
    }

    /// End (hour, minute) of slot `slot`: slot 0 is the first, any other the second.
    pub open spec fn spec_slot_end_hm(self, slot: int) -> (u32, u32) {
        if slot == 0 { (self.end_hour, self.end_minute) } else { (self.end2_hour, self.end2_minute) }
    }

    /// Start (hour, minute) of slot `slot`: slot 0 is the first, any other the second.
    pub fn slot_start_hm(&self, slot: usize) -> (r: (u32, u32))
        ensures
            r == self.spec_slot_start_hm(slot as int),
    {
        if slot == 0 { (self.start_hour, self.start_minute) } else { (self.start2_hour, self.start2_minute) }
    }

    /// End (hour, minute) of slot `slot`: slot 0 is the first, any other the second.
    pub fn slot_end_hm(&self, slot: usize) -> (r: (u32, u32))
        ensures
            r == self.spec_slot_end_hm(slot as int),
    {
        if slot == 0 { (self.end_hour, self.end_minute) } else { (self.end2_hour, self.end2_minute) }
    }
}

/// The application configuration.
#[derive(Clone, Debug)]
pub struct AppConfig {
    /// Legacy single block window (mirrors Monday's first slot).
    pub start_hour: u32,
    pub start_minute: u32,
    pub end_hour: u32,
    pub end_minute: u32,
    pub password_salt: String,
    pub password_hash: String,
    pub auto_start: bool,
    /// Monday = 0 .. Sunday = 6.
    pub weekly_schedule: [DaySchedule; 7],
}

impl AppConfig {
    /// Every day's times fit in a `u32` as minutes since midnight.
    pub open spec fn wf(&self) -> bool {
        forall|i: int| 0 <= i < 7 ==> #[trigger] self.weekly_schedule@[i].fits()
    }

    /// Whether every day's times fit in a `u32` as minutes since midnight.
    pub fn times_fit(&self) -> (r: bool)
        ensures
            r == self.wf(),
    {
        let mut i: usize = 0;
        while i < 7
            invariant
                i <= 7,
                forall|k: int| 0 <= k < i ==> #[trigger] self.weekly_schedule@[k].fits(),
            decreases 7 - i,
        {
            let d = &self.weekly_schedule[i];
            let max: u64 = u32::MAX as u64;
            if d.start_hour as u64 * 60 + d.start_minute as u64 > max
                || d.end_hour as u64 * 60 + d.end_minute as u64 > max
                || d.start2_hour as u64 * 60 + d.start2_minute as u64 > max
                || d.end2_hour as u64 * 60 + d.end2_minute as u64 > max {
                proof {
                    assert(!self.weekly_schedule@[i as int].fits());
                }
                return false;
            }
            i = i + 1;
        }
        true
    }

    /// `input` hashes, under the stored salt, to the stored hash.
    pub open spec fn password_matches(self, input: Seq<char>) -> bool {
        password_hash_spec(input, self.password_salt@) == self.password_hash@
    }

    /// `self` is `before` with its password replaced by `new_password`: a salt
    /// of 32 hex digits made from some clock reading and the process id `pid`,
    /// the hash (64 hex digits) of the new password under it, and everything
    /// else unchanged.
    pub open spec fn password_replaced(self, before: AppConfig, new_password: Seq<char>, pid: u32) -> bool {
        &&& exists|nanos: nat| self.password_salt@ == salt_spec(nanos, pid as nat)
        &&& self.password_salt@.len() == 32
        &&& self.password_hash@ == password_hash_spec(new_password, self.password_salt@)
        &&& self.password_hash@.len() == 64
        &&& self.start_hour == before.start_hour
        &&& self.start_minute == before.start_minute
        &&& self.end_hour == before.end_hour
        &&& self.end_minute == before.end_minute
        &&& self.auto_start == before.auto_start
        &&& self.weekly_schedule == before.weekly_schedule
    }

    /// True exactly when `input` hashes, under the stored salt, to the stored hash.
    pub fn verify_password(&self, input: &str) -> (ok: bool)
        ensures
            ok == self.password_matches(input@),
    {
        let hashed = hash_password(input, self.password_salt.as_str());
        hashed == self.password_hash
    }

    /// Replaces the password: a fresh salt (from the clock and the process id
    /// `pid`) and the hash of `new_password` under it. Nothing else changes.
    pub fn update_password(&mut self, new_password: &str, pid: u32)
        ensures
            final(self).password_replaced(*old(self), new_password@, pid),
    {
        let salt = generate_salt(pid);
        let hash = hash_password(new_password, salt.as_str());
        self.password_salt = salt;
        self.password_hash = hash;
    }

    /// Copies Monday's first slot into the legacy single-window fields.
    pub fn sync_legacy_from_weekly(&mut self)
        ensures
            final(self).start_hour == old(self).weekly_schedule@[0].start_hour,
            final(self).start_minute == old(self).weekly_schedule@[0].start_minute,
            final(self).end_hour == old(self).weekly_schedule@[0].end_hour,
            final(self).end_minute == old(self).weekly_schedule@[0].end_minute,
            final(self).weekly_schedule == old(self).weekly_schedule,
            final(self).password_salt == old(self).password_salt,
            final(self).password_hash == old(self).password_hash,
            final(self).auto_start == old(self).auto_start,
    {
        let monday = self.weekly_schedule[0];
        self.start_hour = monday.start_hour;
        self.start_minute = monday.start_minute;
        self.end_hour = monday.end_hour;
        self.end_minute = monday.end_minute;
    }

    /// Builds the weekly schedule of a configuration that only has the legacy
    /// single window: every day checked with that window, second slot unused.
    pub fn weekly_from_legacy(sh: u32, sm: u32, eh: u32, em: u32) -> (w: [DaySchedule; 7])
        ensures
            forall|i: int| 0 <= i < 7 ==> #[trigger] w@[i] == DaySchedule::from_window_spec(sh, sm, eh, em),
    {
        let d = DaySchedule::from_window(sh, sm, eh, em);
        [d, d, d, d, d, d, d]
    }

    /// The weekly schedule of a stored configuration: the stored week when
    /// there is one, else (a configuration written before the weekly
    /// schedule existed) its legacy single window on every day.
    pub fn stored_weekly(weekly: Option<[DaySchedule; 7]>, sh: u32, sm: u32, eh: u32, em: u32) -> (w: [DaySchedule; 7])
        ensures
            weekly matches Some(days) ==> w == days,
            weekly is None ==> forall|i: int| 0 <= i < 7 ==> #[trigger] w@[i] == DaySchedule::from_window_spec(sh, sm, eh, em),
    {
        match weekly {
            Some(days) => days,
            None => AppConfig::weekly_from_legacy(sh, sm, eh, em),
        }
    }
}

impl Default for AppConfig {
    fn default() -> (cfg: Self)
        ensures
            cfg.start_hour == 0,
            cfg.start_minute == 0,
            cfg.end_hour == 7,
            cfg.end_minute == 0,
            cfg.password_salt@ == DEFAULT_SALT@,
            cfg.password_hash@ == password_hash_spec(DEFAULT_PASSWORD@, DEFAULT_SALT@),
            cfg.auto_start == false,
            forall|i: int| 0 <= i < 7 ==> #[trigger] cfg.weekly_schedule@[i] == DaySchedule::spec_default(),
            cfg.wf(),
    {
        let salt = String::from_str(DEFAULT_SALT);
        let hash = hash_password(DEFAULT_PASSWORD, DEFAULT_SALT);
        let weekly = AppConfig::weekly_from_legacy(0, 0, 7, 0);
        AppConfig {
            start_hour: 0,
            start_minute: 0,
            end_hour: 7,
            end_minute: 0,
            password_salt: salt,
            password_hash: hash,
            auto_start: false,
            weekly_schedule: weekly,
        }
    }
}

} // verus!
