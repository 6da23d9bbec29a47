//! UTF-16 text for the Windows API and UTF-16LE files.

use vstd::prelude::*;

verus! {

/// The UTF-16 code units of one character.
pub open spec fn utf16_units(c: char) -> Seq<u16> {
    let v = c as u32;
    if v < 0x10000 {
        seq![v as u16]
    } else {
        let w = v - 0x10000;
        seq![(0xD800 + w / 1024) as u16, (0xDC00 + w % 1024) as u16]
    }
}

/// The UTF-16 code units of a text (`encode_utf16`).
pub open spec fn utf16_of(s: Seq<char>) -> Seq<u16>
    decreases s.len(),
{
    if s.len() == 0 {
        Seq::empty()
    } else {
        utf16_of(s.drop_last()) + utf16_units(s.last())
    }
}

/// Code units as little-endian bytes.
pub open spec fn le16_bytes(units: Seq<u16>) -> Seq<u8>
    decreases units.len(),
{
    if units.len() == 0 {
        Seq::empty()
    } else {
        le16_bytes(units.drop_last()) + seq![(units.last() % 256) as u8, (units.last() / 256) as u8]
    }
}

/// Appends the UTF-16 code units of `c`.
fn push_units(out: &mut Vec<u16>, c: char)
    ensures
        final(out)@ == old(out)@ + utf16_units(c),
{
    let v = c as u32;
    if v < 0x10000 {
        out.push(v as u16);
    } else {
        let w = v - 0x10000;
        out.push((0xD800 + w / 1024) as u16);
        out.push((0xDC00 + w % 1024) as u16);
    }
}

/// The UTF-16 code units of a text.
pub fn utf16(s: &str) -> (out: Vec<u16>)
    ensures
        out@ == utf16_of(s@),
{
    let n = s.unicode_len();
    let mut out: Vec<u16> = Vec::new();
    let mut i: usize = 0;
    while i < n
        invariant
            i <= n,
            n == s@.len(),
            out@ == utf16_of(s@.take(i as int)),
        decreases n - i,
    {
        let c = s.get_char(i);
        proof {
            assert(s@.take(i + 1).drop_last() =~= s@.take(i as int));
        }
        push_units(&mut out, c);
        i = i + 1;
    }
    proof {
        assert(s@.take(n as int) =~= s@);
    }
    out
}

/// A NUL-terminated UTF-16 text for the Windows API.
pub fn wide(s: &str) -> (out: Vec<u16>)
    ensures
        out@ == utf16_of(s@).push(0u16),
{
    let mut out = utf16(s);
    out.push(0);
    out
}

/// The first `max` UTF-16 code units of a text (all of them when shorter).
pub fn utf16_prefix(s: &str, max: usize) -> (out: Vec<u16>)
    ensures
        out@ == if utf16_of(s@).len() <= max { utf16_of(s@) } else { utf16_of(s@).take(max as int) },
{
    let all = utf16(s);
    if all.len() <= max {
        return all;
    }
    let mut out: Vec<u16> = Vec::new();
    let mut i: usize = 0;
    while i < max
        invariant
            i <= max,
            max < all@.len(),
            out@ == all@.take(i as int),
        decreases max - i,
    {
        out.push(all[i]);
        i = i + 1;
        proof {
            assert(out@ =~= all@.take(i as int));
        }
    }
    out
}

/// A text as UTF-16LE bytes behind a byte-order mark (`FF FE`).
pub fn utf16le_with_bom(s: &str) -> (out: Vec<u8>)
    ensures
        out@ == seq![0xFFu8, 0xFEu8] + le16_bytes(utf16_of(s@)),
{
    let units = utf16(s);
    let mut out: Vec<u8> = Vec::new();
    out.push(0xFF);
    out.push(0xFE);
    let mut i: usize = 0;
    while i < units.len()
        invariant
            i <= units@.len(),
            out@ == seq![0xFFu8, 0xFEu8] + le16_bytes(units@.take(i as int)),
        decreases units@.len() - i,
    {
        let u = units[i];
        proof {
            assert(units@.take(i + 1).drop_last() =~= units@.take(i as int));
        }
        out.push((u % 256) as u8);
        out.push((u / 256) as u8);
        i = i + 1;
        proof {
            assert(out@ =~= seq![0xFFu8, 0xFEu8] + le16_bytes(units@.take(i as int)));
        }
    }
    proof {
        assert(units@.take(units@.len() as int) =~= units@);
    }
    out
}

} // verus!
