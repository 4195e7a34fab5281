//! Wall-clock time and random identifiers, the two things a fix record
//! takes from its surroundings.

use vstd::prelude::*;
use crate::text::push_char;

verus! {

/// A point in time: seconds since the Unix epoch (negative before it) and
/// the nanoseconds past that second.
#[derive(Clone, Copy, PartialEq, Eq, Debug, Structural)]
pub struct Timestamp {
    /// Whole seconds since the epoch.
    pub secs: i64,
    /// Nanoseconds past the second.
    pub nanos: u32,
}

/// `a` comes strictly before `b`.
pub open spec fn earlier(a: Timestamp, b: Timestamp) -> bool {
    a.secs < b.secs || (a.secs == b.secs && a.nanos < b.nanos)
}

impl Timestamp {
    /// Strictly before `other`.
    pub fn is_before(&self, other: &Timestamp) -> (r: bool)
        ensures
            r == earlier(*self, *other),
    {
        self.secs < other.secs || (self.secs == other.secs && self.nanos < other.nanos)
    }
}

#[verifier::external_type_specification]
#[verifier::external_body]
pub struct ExSystemTime(std::time::SystemTime);

/// Reads the system clock with `std::time::SystemTime::now`.  Nothing is
/// stated of the value: it is whatever the clock says.
#[verifier::external_body]
fn system_now() -> (t: std::time::SystemTime) {
    std::time::SystemTime::now()
}

/// Calls `SystemTime::duration_since(UNIX_EPOCH)` and takes the duration
/// apart: `Ok` with the whole seconds and sub-second nanoseconds a time
/// lies after the epoch, `Err` with those it lies before it (the error's
/// duration).  The nanoseconds are below one billion, as std documents of
/// `Duration::subsec_nanos`; nothing else is stated of the values.
#[verifier::external_body]
fn since_epoch(t: &std::time::SystemTime) -> (r: Result<(u64, u32), (u64, u32)>)
    ensures
        match r {
            Ok((_, n)) => n < 1_000_000_000,
            Err((_, n)) => n < 1_000_000_000,
        },
{
    match t.duration_since(std::time::UNIX_EPOCH) {
        Ok(d) => Ok((d.as_secs(), d.subsec_nanos())),
        Err(e) => Err((e.duration().as_secs(), e.duration().subsec_nanos())),
    }
}

/// The timestamp of a time given by its distance from the epoch (`Ok`
/// after it, `Err` before it): seconds rounded down, with the nanoseconds
/// past them; seconds beyond the range of `i64` are clamped to its ends.
pub open spec fn timestamp_of(r: Result<(u64, u32), (u64, u32)>) -> Timestamp {
    match r {
        Ok((s, n)) => Timestamp { secs: if s <= i64::MAX { s as i64 } else { i64::MAX }, nanos: n },
        Err((s, n)) => {
            let v: int = if n == 0 { -(s as int) } else { -(s as int) - 1 };
            Timestamp {
                secs: if v >= i64::MIN { v as i64 } else { i64::MIN },
                nanos: if n == 0 { 0 } else { (1_000_000_000 - n) as u32 },
            }
        }
    }
}

/// The timestamp of a time given by its distance from the epoch.
pub fn epoch_timestamp(r: Result<(u64, u32), (u64, u32)>) -> (t: Timestamp)
    requires
        match r {
            Ok((_, n)) => n < 1_000_000_000,
            Err((_, n)) => n < 1_000_000_000,
        },
    ensures
        t == timestamp_of(r),
        t.nanos < 1_000_000_000,
{
    match r {
        Ok((s, n)) => {
            let secs: i64 = if s <= 9223372036854775807u64 { s as i64 } else { i64::MAX };
            Timestamp { secs, nanos: n }
        }
        Err((s, n)) => {
            if n == 0 {
                let secs: i64 = if s <= 9223372036854775808u64 {
                    (0i128 - (s as i128)) as i64
                } else {
                    i64::MIN
                };
                Timestamp { secs, nanos: 0 }
            } else {
                let secs: i64 = if s <= 9223372036854775807u64 {
                    (0i128 - (s as i128) - 1) as i64
                } else {
                    i64::MIN
                };
                Timestamp { secs, nanos: 1_000_000_000 - n }
            }
        }
    }
}

/// The current time as a Unix timestamp.  A clock set before 1970 gives a
/// negative timestamp rather than a failure.  Nothing else is stated of
/// the value: it is whatever the clock says.
pub fn now() -> (t: Timestamp)
    ensures
        t.nanos < 1_000_000_000,
{
    let clock = system_now();
    epoch_timestamp(since_epoch(&clock))
}

/// A version-4 (random) UUID value: version nibble 4, variant bits `10`.
pub open spec fn is_v4_uuid(v: u128) -> bool {
    &&& (v >> 76u128) & 0xfu128 == 4
    &&& (v >> 62u128) & 0x3u128 == 2
}

/// A fresh random (version 4) UUID from `uuid::Uuid::new_v4`, as its 128-bit
/// value.  The source sets the version nibble to 4 and the variant bits to
/// `10`; the other bits are random, and nothing more is stated of them.
#[verifier::external_body]
pub fn random_uuid() -> (v: u128)
    ensures
        is_v4_uuid(v),
{
    uuid::Uuid::new_v4().as_u128()
}

/// The lower-case hexadecimal digit for a value below sixteen.
pub open spec fn hex_lower(d: nat) -> char {
    if d == 0 { '0' } else if d == 1 { '1' } else if d == 2 { '2' } else if d == 3 { '3' }
    else if d == 4 { '4' } else if d == 5 { '5' } else if d == 6 { '6' } else if d == 7 { '7' }
    else if d == 8 { '8' } else if d == 9 { '9' } else if d == 10 { 'a' } else if d == 11 { 'b' }
    else if d == 12 { 'c' } else if d == 13 { 'd' } else if d == 14 { 'e' } else { 'f' }
}

/// The last `n` hexadecimal digits of `v`, most significant first.
pub open spec fn hex_digits(v: nat, n: nat) -> Seq<char>
    decreases n,
{
    if n == 0 {
        seq![]
    } else {
        hex_digits(v / 16, (n - 1) as nat).push(hex_lower(v % 16))
    }
}

/// There are as many digits as asked for.
pub proof fn hex_digits_len(v: nat, n: nat)
    ensures
        hex_digits(v, n).len() == n,
    decreases n,
{
    if n > 0 {
        hex_digits_len(v / 16, (n - 1) as nat);
    }
}

/// A UUID as text: its 32 hexadecimal digits in groups of 8, 4, 4, 4 and
/// 12, joined by hyphens (the hyphenated form `Uuid` displays).
pub open spec fn uuid_text_of(v: u128) -> Seq<char> {
    let h = hex_digits(v as nat, 32);
    h.subrange(0, 8) + seq!['-'] + h.subrange(8, 12) + seq!['-'] + h.subrange(12, 16) + seq!['-']
        + h.subrange(16, 20) + seq!['-'] + h.subrange(20, 32)
}

/// The hexadecimal digit of a value below sixteen.
fn hex_char(d: u8) -> (c: char)
    requires
        d < 16,
    ensures
        c == hex_lower(d as nat),
{
    if d == 0 { '0' } else if d == 1 { '1' } else if d == 2 { '2' } else if d == 3 { '3' }
    else if d == 4 { '4' } else if d == 5 { '5' } else if d == 6 { '6' } else if d == 7 { '7' }
    else if d == 8 { '8' } else if d == 9 { '9' } else if d == 10 { 'a' } else if d == 11 { 'b' }
    else if d == 12 { 'c' } else if d == 13 { 'd' } else if d == 14 { 'e' } else { 'f' }
}

/// Appends `d[from..to]` to `out`.
fn push_range(out: &mut String, d: &Vec<char>, from: usize, to: usize)
    requires
        from <= to <= d@.len(),
    ensures
        final(out)@ == old(out)@ + d@.subrange(from as int, to as int),
{
    let mut i: usize = from;
    while i < to
        invariant
            from <= i <= to,
            to <= d@.len(),
            out@ == old(out)@ + d@.subrange(from as int, i as int),
        decreases to - i,
    {
        push_char(out, d[i]);
        assert(out@ =~= old(out)@ + d@.subrange(from as int, i + 1));
        i = i + 1;
    }
}

/// A UUID value in its hyphenated text form.
pub fn uuid_text(v: u128) -> (r: String)
    ensures
        r@ == uuid_text_of(v),
{
    let mut digits: Vec<char> = Vec::new();
    let mut rest: u128 = v;
    let mut i: u32 = 0;
    while i < 32
        invariant
            i <= 32,
            hex_digits(v as nat, 32) == hex_digits(rest as nat, (32 - i) as nat) + digits@,
        decreases 32 - i,
    {
        let d = (rest % 16) as u8;
        let ghost before = digits@;
        let ghost r0 = rest;
        digits.insert(0, hex_char(d));
        rest = rest / 16;
        assert(hex_digits(r0 as nat, (32 - i) as nat)
            == hex_digits(rest as nat, (32 - i - 1) as nat).push(hex_lower((r0 % 16) as nat)));
        assert(hex_digits(rest as nat, (32 - i - 1) as nat).push(hex_lower((r0 % 16) as nat)) + before
            =~= hex_digits(rest as nat, (32 - i - 1) as nat) + digits@);
        i = i + 1;
    }
    assert(hex_digits(v as nat, 32) =~= digits@);
    proof { hex_digits_len(v as nat, 32); }
    let mut out = String::new();
    push_range(&mut out, &digits, 0, 8);
    push_char(&mut out, '-');
    push_range(&mut out, &digits, 8, 12);
    push_char(&mut out, '-');
    push_range(&mut out, &digits, 12, 16);
    push_char(&mut out, '-');
    push_range(&mut out, &digits, 16, 20);
    push_char(&mut out, '-');
    push_range(&mut out, &digits, 20, 32);
    assert(out@ =~= uuid_text_of(v));
    out
}

} // verus!
