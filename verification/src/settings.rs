//! The admin settings window's input rules: time fields, the password
//! change, and applying the edited week.

use vstd::prelude::*;
use crate::config::{AppConfig, DaySchedule};
use crate::text::{is_digit, pad2, parse_u32, parse_u32_spec, two_digits};

verus! {

/// Hour and minute texts as a time: both parse as `u32`, the hour is at most
/// 23 and the minute at most 59.
pub open spec fn parse_hm_spec(h: Seq<char>, m: Seq<char>) -> Option<(u32, u32)> {
    match (parse_u32_spec(h), parse_u32_spec(m)) {
        (Some(hv), Some(mv)) => if hv > 23 || mv > 59 { None } else { Some((hv, mv)) },
        _ => None,
    }
}

/// Reads a time from the (trimmed) hour and minute field texts.
pub fn parse_hm(h: &str, m: &str) -> (r: Option<(u32, u32)>)
    ensures
        r == parse_hm_spec(h@, m@),
{
    let hv = parse_u32(h)?;
    let mv = parse_u32(m)?;
    if hv > 23 || mv > 59 {
        return None;
    }
    Some((hv, mv))
}

/// The text a time field gets when it loses focus: `00` when empty, a single
/// digit padded with a zero, anything else left as it is (`None`).
pub open spec fn pad_time_field_spec(t: Seq<char>) -> Option<Seq<char>> {
    if t.len() == 0 {
        Some("00"@)
    } else if t.len() == 1 && is_digit(t[0]) {
        Some(seq!['0'] + t)
    } else {
        None
    }
}

/// The text a time field gets when it loses focus, if it changes.
pub fn pad_time_field(t: &str) -> (r: Option<String>)
    ensures
        r matches Some(s) ==> pad_time_field_spec(t@) == Some(s@),
        r is None ==> pad_time_field_spec(t@) is None,
{
    let n = t.unicode_len();
    if n == 0 {
        return Some(String::from_str("00"));
    }
    if n == 1 {
        let c = t.get_char(0);
        if '0' <= c && c <= '9' {
            let mut s = String::from_str("0");
            s.append(t);
            proof {
                reveal_strlit("0");
            }
            return Some(s);
        }
    }
    None
}

/// The answer to a password change request.
#[derive(Clone, Copy, Debug, PartialEq, Eq)]
pub enum PasswordChange {
    /// The current password is wrong.
    WrongCurrent,
    /// The new password is empty.
    EmptyNew,
    /// The confirmation differs from the new password.
    Mismatch,
    /// The change may go ahead.
    Accepted,
}

/// The answer to changing the password from `current` to `new_password`
/// confirmed as `confirm`, checked in this order.
pub open spec fn password_change_spec(cfg: AppConfig, current: Seq<char>, new_password: Seq<char>, confirm: Seq<char>) -> PasswordChange {
    if !cfg.password_matches(current) {
        PasswordChange::WrongCurrent
    } else if new_password.len() == 0 {
        PasswordChange::EmptyNew
    } else if new_password != confirm {
        PasswordChange::Mismatch
    } else {
        PasswordChange::Accepted
    }
}

/// Checks a password change request.
pub fn check_password_change(cfg: &AppConfig, current: &str, new_password: &str, confirm: &str) -> (r: PasswordChange)
    ensures
        r == password_change_spec(*cfg, current@, new_password@, confirm@),
{
    if !cfg.verify_password(current) {
        PasswordChange::WrongCurrent
    } else if new_password.is_empty() {
        PasswordChange::EmptyNew
    } else {
        let a = String::from_str(new_password);
        let b = String::from_str(confirm);
        if a != b {
            PasswordChange::Mismatch
        } else {
            PasswordChange::Accepted
        }
    }
}

/// A weekday read from its check box and its eight time fields (slot 1
/// start hour and minute, end hour and minute, then the same for slot 2):
/// `None` when one of the four times is not a valid time.
pub open spec fn parse_day_spec(enabled: bool, f: Seq<Seq<char>>) -> Option<DaySchedule> {
    match (parse_hm_spec(f[0], f[1]), parse_hm_spec(f[2], f[3]), parse_hm_spec(f[4], f[5]), parse_hm_spec(f[6], f[7])) {
        (Some(a), Some(b), Some(c), Some(d)) => Some(DaySchedule {
            enabled,
            start_hour: a.0,
            start_minute: a.1,
            end_hour: b.0,
            end_minute: b.1,
            start2_hour: c.0,
            start2_minute: c.1,
            end2_hour: d.0,
            end2_minute: d.1,
        }),
        _ => None,
    }
}

/// The texts of an array of fields.
pub open spec fn field_texts<const N: usize>(f: [String; N]) -> Seq<Seq<char>> {
    f@.map_values(|t: String| t@)
}

/// The eight time fields a weekday is shown with: each time as two digits.
pub open spec fn day_fields_spec(d: DaySchedule) -> Seq<Seq<char>> {
    seq![
        pad2(d.start_hour as nat),
        pad2(d.start_minute as nat),
        pad2(d.end_hour as nat),
        pad2(d.end_minute as nat),
        pad2(d.start2_hour as nat),
        pad2(d.start2_minute as nat),
        pad2(d.end2_hour as nat),
        pad2(d.end2_minute as nat),
    ]
}

/// The texts of a weekday's eight time fields when the window opens.
pub fn day_field_texts(d: &DaySchedule) -> (f: [String; 8])
    ensures
        field_texts(f) == day_fields_spec(*d),
{
    let f = [
        two_digits(d.start_hour),
        two_digits(d.start_minute),
        two_digits(d.end_hour),
        two_digits(d.end_minute),
        two_digits(d.start2_hour),
        two_digits(d.start2_minute),
        two_digits(d.end2_hour),
        two_digits(d.end2_minute),
    ];
    proof {
        assert(field_texts(f) =~= day_fields_spec(*d));
    }
    f
}

/// Reads a weekday from its check box and its eight time fields.
pub fn parse_day(enabled: bool, f: &[String; 8]) -> (r: Option<DaySchedule>)
    ensures
        r == parse_day_spec(enabled, field_texts(*f)),
{
    let a = parse_hm(f[0].as_str(), f[1].as_str())?;
    let b = parse_hm(f[2].as_str(), f[3].as_str())?;
    let c = parse_hm(f[4].as_str(), f[5].as_str())?;
    let d = parse_hm(f[6].as_str(), f[7].as_str())?;
    Some(DaySchedule {
        enabled,
        start_hour: a.0,
        start_minute: a.1,
        end_hour: b.0,
        end_minute: b.1,
        start2_hour: c.0,
        start2_minute: c.1,
        end2_hour: d.0,
        end2_minute: d.1,
    })
}

/// Reads the whole week: the days in order, or the first weekday whose
/// fields do not hold valid times.
pub fn parse_week(enabled: &[bool; 7], fields: &[[String; 8]; 7]) -> (r: Result<[DaySchedule; 7], usize>)
    ensures
        r matches Ok(w) ==> forall|i: int| 0 <= i < 7 ==> parse_day_spec(enabled@[i], field_texts(fields@[i])) == Some(#[trigger] w@[i]),
        r matches Err(k) ==> k < 7 && parse_day_spec(enabled@[k as int], field_texts(fields@[k as int])) is None
            && forall|i: int| 0 <= i < k ==> #[trigger] parse_day_spec(enabled@[i], field_texts(fields@[i])) is Some,
{
    let blank = DaySchedule {
        enabled: false,
        start_hour: 0,
        start_minute: 0,
        end_hour: 0,
        end_minute: 0,
        start2_hour: 0,
        start2_minute: 0,
        end2_hour: 0,
        end2_minute: 0,
    };
    let mut days = [blank; 7];
    let mut i: usize = 0;
    while i < 7
        invariant
            i <= 7,
            forall|k: int| 0 <= k < i ==> parse_day_spec(enabled@[k], field_texts(fields@[k])) == Some(#[trigger] days@[k]),
            forall|k: int| 0 <= k < i ==> #[trigger] parse_day_spec(enabled@[k], field_texts(fields@[k])) is Some,
        decreases 7 - i,
    {
        match parse_day(enabled[i], &fields[i]) {
            Some(d) => {
                days[i] = d;
            },
            None => {
                return Err(i);
            },
        }
        i = i + 1;
    }
    Ok(days)
}

/// The texts a batch slot copies to every weekday: its start and end hour
/// and minute, each as two digits, or `None` when one of the two times is
/// not a valid time.
pub fn batch_slot(f: &[String; 4]) -> (r: Option<[String; 4]>)
    ensures
        r is Some <==> (parse_hm_spec(f@[0]@, f@[1]@) is Some && parse_hm_spec(f@[2]@, f@[3]@) is Some),
        r matches Some(t) ==> {
            let (sh, sm) = parse_hm_spec(f@[0]@, f@[1]@).unwrap();
            let (eh, em) = parse_hm_spec(f@[2]@, f@[3]@).unwrap();
            &&& t@[0]@ == pad2(sh as nat)
            &&& t@[1]@ == pad2(sm as nat)
            &&& t@[2]@ == pad2(eh as nat)
            &&& t@[3]@ == pad2(em as nat)
        },
{
    let (sh, sm) = parse_hm(f[0].as_str(), f[1].as_str())?;
    let (eh, em) = parse_hm(f[2].as_str(), f[3].as_str())?;
    Some([two_digits(sh), two_digits(sm), two_digits(eh), two_digits(em)])
}

/// Control id of the first weekday's slot 1 start hour field; the eight
/// time fields of a weekday (slot 1 start hour, start minute, end hour, end
/// minute, then slot 2's) have ids ten apart, and the weekdays of one field
/// follow each other (Monday first).
pub const FIRST_DAY_FIELD_ID: usize = 230;

/// Control id of the first batch field; each of the two batch slots has four
/// fields (start hour, start minute, end hour, end minute) in a row.
pub const FIRST_BATCH_FIELD_ID: usize = 310;

/// A time field of the settings window.
#[derive(Clone, Copy, Debug, PartialEq, Eq)]
pub enum TimeField {
    /// Field `field` (0 ..= 7) of weekday `day` (Monday = 0 .. Sunday = 6).
    Day { field: usize, day: usize },
    /// Field `field` (0 ..= 3) of batch slot `slot` (0 or 1).
    Batch { slot: usize, field: usize },
}

/// The time field with control id `id`, if it is one.
pub open spec fn time_field_spec(id: int) -> Option<TimeField> {
    if FIRST_DAY_FIELD_ID <= id < FIRST_DAY_FIELD_ID + 80 && (id - FIRST_DAY_FIELD_ID) % 10 < 7 {
        Some(TimeField::Day {
            field: ((id - FIRST_DAY_FIELD_ID) / 10) as usize,
            day: ((id - FIRST_DAY_FIELD_ID) % 10) as usize,
        })
    } else if FIRST_BATCH_FIELD_ID <= id < FIRST_BATCH_FIELD_ID + 8 {
        Some(TimeField::Batch {
            slot: ((id - FIRST_BATCH_FIELD_ID) / 4) as usize,
            field: ((id - FIRST_BATCH_FIELD_ID) % 4) as usize,
        })
    } else {
        None
    }
}

/// The time field with control id `id`, if it is one.
pub fn time_field_of(id: usize) -> (r: Option<TimeField>)
    ensures
        r == time_field_spec(id as int),
{
    if id >= FIRST_DAY_FIELD_ID && id < FIRST_DAY_FIELD_ID + 80 && (id - FIRST_DAY_FIELD_ID) % 10 < 7 {
        Some(TimeField::Day { field: (id - FIRST_DAY_FIELD_ID) / 10, day: (id - FIRST_DAY_FIELD_ID) % 10 })
    } else if id >= FIRST_BATCH_FIELD_ID && id < FIRST_BATCH_FIELD_ID + 8 {
        Some(TimeField::Batch { slot: (id - FIRST_BATCH_FIELD_ID) / 4, field: (id - FIRST_BATCH_FIELD_ID) % 4 })
    } else {
        None
    }
}

/// Stores the edited week and the autostart choice, and mirrors Monday's
/// first slot into the legacy fields.
pub fn apply_week(cfg: &mut AppConfig, days: &[DaySchedule; 7], auto_start: bool)
    ensures
        final(cfg).weekly_schedule@ == days@,
        final(cfg).auto_start == auto_start,
        final(cfg).start_hour == days@[0].start_hour,
        final(cfg).start_minute == days@[0].start_minute,
        final(cfg).end_hour == days@[0].end_hour,
        final(cfg).end_minute == days@[0].end_minute,
        final(cfg).password_salt == old(cfg).password_salt,
        final(cfg).password_hash == old(cfg).password_hash,
{
    cfg.weekly_schedule = *days;
    cfg.sync_legacy_from_weekly();
    cfg.auto_start = auto_start;
}

} // verus!
