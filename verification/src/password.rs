//! Salted SHA-256 password hashes, rendered as lowercase hex.

use vstd::prelude::*;
use vstd::utf8::encode_utf8;
use sha2::{Digest, Sha256};
use crate::clock::unix_time_now;

verus! {

/// The SHA-256 digest of a byte string (32 bytes), as the `sha2` crate computes it.
pub uninterp spec fn sha256_spec(data: Seq<u8>) -> Seq<u8>;

/// The lowercase hex digit of a nibble.
pub open spec fn hex_digit(n: int) -> char
    recommends
        0 <= n < 16,
{
    if n < 10 {
        crate::text::digit_char(n)
    } else if n == 10 { 'a' }
    else if n == 11 { 'b' }
    else if n == 12 { 'c' }
    else if n == 13 { 'd' }
    else if n == 14 { 'e' }
    else { 'f' }
}

/// Lowercase hex text of a byte string: two digits per byte, high nibble first.
pub open spec fn hex_lower(bytes: Seq<u8>) -> Seq<char>
    decreases bytes.len(),
{
    if bytes.len() == 0 {
        Seq::empty()
    } else {
        seq![hex_digit((bytes[0] / 16) as int), hex_digit((bytes[0] % 16) as int)] + hex_lower(bytes.drop_first())
    }
}

/// The little-endian bytes of the lowest `k` bytes of `n` (`to_le_bytes`).
pub open spec fn le_bytes(n: nat, k: nat) -> Seq<u8>
    decreases k,
{
    if k == 0 {
        Seq::empty()
    } else {
        seq![(n % 256) as u8] + le_bytes(n / 256, (k - 1) as nat)
    }
}

/// The stored hash of `password` under `salt`: SHA-256 over the salt's UTF-8
/// bytes followed by the password's, in lowercase hex.
pub open spec fn password_hash_spec(password: Seq<char>, salt: Seq<char>) -> Seq<char> {
    hex_lower(sha256_spec(encode_utf8(salt) + encode_utf8(password)))
}

/// A salt made from a clock reading and a process id: the first 16 bytes of
/// SHA-256 over their little-endian bytes, in lowercase hex.
pub open spec fn salt_spec(nanos: nat, pid: nat) -> Seq<char> {
    hex_lower(sha256_spec(le_bytes(nanos, 16) + le_bytes(pid, 4)).take(16))
}

/// Calls `sha2::Sha256::digest`. Trusted: the result is the SHA-256 digest of
/// `data` (named `sha256_spec`), which is 32 bytes long.
#[verifier::external_body]
fn sha256_digest(data: &[u8]) -> (res: Vec<u8>)
    ensures
        res@ == sha256_spec(data@),
        res@.len() == 32,
{
    Sha256::digest(data).to_vec()
}

/// Calls `hex::encode`. Trusted: the result is two lowercase hex digits per
/// input byte, high nibble first, as `hex_lower` states.
#[verifier::external_body]
fn hex_encode(data: &[u8]) -> (res: String)
    ensures
        res@ == hex_lower(data@),
{
    hex::encode(data)
}

/// Two lowercase hex digits per byte.
pub proof fn lemma_hex_len(bytes: Seq<u8>)
    ensures
        hex_lower(bytes).len() == 2 * bytes.len(),
    decreases bytes.len(),
{
    if bytes.len() > 0 {
        lemma_hex_len(bytes.drop_first());
    }
}

/// Appends the lowest `k` bytes of `n` in little-endian order.
pub(crate) fn push_le_bytes(out: &mut Vec<u8>, n: u128, k: usize)
    ensures
        final(out)@ == old(out)@ + le_bytes(n as nat, k as nat),
{
    let mut x: u128 = n;
    let mut i: usize = 0;
    while i < k
        invariant
            i <= k,
            out@ + le_bytes(x as nat, (k - i) as nat) == old(out)@ + le_bytes(n as nat, k as nat),
        decreases k - i,
    {
        let b: u8 = (x % 256) as u8;
        proof {
            assert(le_bytes(x as nat, (k - i) as nat) == seq![b] + le_bytes((x / 256) as nat, (k - i - 1) as nat));
            assert(out@.push(b) + le_bytes((x / 256) as nat, (k - i - 1) as nat) == out@ + (seq![b] + le_bytes((x / 256) as nat, (k - i - 1) as nat)));
        }
        out.push(b);
        x = x / 256;
        i = i + 1;
    }
    proof {
        assert(out@ + le_bytes(x as nat, 0) == out@);
    }
}

/// The stored text of a digest: lowercase hex, two digits per byte.
pub fn digest_hex(digest: &[u8]) -> (s: String)
    ensures
        s@ == hex_lower(digest@),
{
    hex_encode(digest)
}

/// The salt text of a digest: its first 16 bytes in lowercase hex.
pub fn salt_hex(digest: &[u8]) -> (s: String)
    requires
        digest@.len() >= 16,
    ensures
        s@ == hex_lower(digest@.take(16)),
        s@.len() == 32,
{
    proof {
        lemma_hex_len(digest@.take(16));
    }
    let mut head: Vec<u8> = Vec::new();
    let mut i: usize = 0;
    while i < 16
        invariant
            i <= 16,
            digest@.len() >= 16,
            head@ == digest@.take(i as int),
        decreases 16 - i,
    {
        head.push(digest[i]);
        i = i + 1;
        proof {
            assert(head@ =~= digest@.take(i as int));
        }
    }
    hex_encode(head.as_slice())
}

/// The salted hash of a password, as stored in the configuration.
pub fn hash_password(password: &str, salt: &str) -> (res: String)
    ensures
        res@ == password_hash_spec(password@, salt@),
        res@.len() == 64,
{
    let mut data: Vec<u8> = salt.as_bytes_vec();
    let mut rest: Vec<u8> = password.as_bytes_vec();
    data.append(&mut rest);
    let digest = sha256_digest(data.as_slice());
    proof {
        lemma_hex_len(digest@);
    }
    digest_hex(digest.as_slice())
}

/// The salt for a clock reading `nanos` and a process id `pid`.
pub fn salt_from_entropy(nanos: u128, pid: u32) -> (res: String)
    ensures
        res@ == salt_spec(nanos as nat, pid as nat),
        res@.len() == 32,
{
    let mut data: Vec<u8> = Vec::new();
    push_le_bytes(&mut data, nanos, 16);
    push_le_bytes(&mut data, pid as u128, 4);
    proof {
        assert(data@ == le_bytes(nanos as nat, 16) + le_bytes(pid as nat, 4));
    }
    let digest = sha256_digest(data.as_slice());
    salt_hex(digest.as_slice())
}

/// A fresh salt: the current clock reading in nanoseconds since the Unix
/// epoch (zero when the clock reads before the epoch) combined with the
/// process id `pid`.
pub fn generate_salt(pid: u32) -> (res: String)
    ensures
        exists|nanos: nat| res@ == salt_spec(nanos, pid as nat),
        res@.len() == 32,
{
    let nanos: u128 = match unix_time_now() {
        Some((secs, sub)) => secs as u128 * 1_000_000_000 + sub as u128,
        None => 0,
    };
    salt_from_entropy(nanos, pid)
}

} // verus!
