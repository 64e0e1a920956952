//! Decimal numerals: reading unsigned integers as `str::parse` reads them,
//! and writing signed ones.

use vstd::prelude::*;
use crate::text::{chars_of, decimal, push_char, spec_decimal};

verus! {

/// Why a numeral was refused; the kinds that `str::parse` reports for an
/// unsigned integer type.
#[derive(Debug, Clone, Copy, PartialEq, Eq, Structural)]
pub enum IntErrorKind {
    Empty,
    InvalidDigit,
    PosOverflow,
}

pub open spec fn is_digit(c: char) -> bool {
    48 <= (c as u32) <= 57
}

pub open spec fn digit_value(c: char) -> nat {
    ((c as u32) - 48) as nat
}

/// Reads the digits of `d` from position `i` on, onto the value `acc` read
/// so far: the first character that is no digit, or the first digit after
/// which the value passes `max`, decides the error.
pub open spec fn scan_digits(d: Seq<char>, i: int, acc: nat, max: nat) -> Result<nat, IntErrorKind>
    decreases d.len() - i,
{
    if i < 0 || i >= d.len() {
        Ok(acc)
    } else if !is_digit(d[i]) {
        Err(IntErrorKind::InvalidDigit)
    } else if acc * 10 + digit_value(d[i]) > max {
        Err(IntErrorKind::PosOverflow)
    } else {
        scan_digits(d, i + 1, acc * 10 + digit_value(d[i]), max)
    }
}

/// The value of an unsigned decimal numeral no greater than `max`: an
/// optional `+`, then at least one digit.
pub open spec fn spec_parse_unsigned(s: Seq<char>, max: nat) -> Result<nat, IntErrorKind> {
    if s.len() == 0 {
        Err(IntErrorKind::Empty)
    } else if s.len() == 1 && (s[0] == '+' || s[0] == '-') {
        Err(IntErrorKind::InvalidDigit)
    } else if s[0] == '+' {
        scan_digits(s, 1, 0, max)
    } else {
        scan_digits(s, 0, 0, max)
    }
}

fn parse_unsigned(s: &str, max: u32) -> (r: Result<u32, IntErrorKind>)
    ensures
        match r {
            Ok(n) => spec_parse_unsigned(s@, max as nat) == Ok::<nat, IntErrorKind>(n as nat),
            Err(k) => spec_parse_unsigned(s@, max as nat) == Err::<nat, IntErrorKind>(k),
        },
        r matches Ok(n) ==> n <= max,
{
    let v = chars_of(s);
    let n = v.len();
    if n == 0 {
        return Err(IntErrorKind::Empty);
    }
    if n == 1 && (v[0] == '+' || v[0] == '-') {
        return Err(IntErrorKind::InvalidDigit);
    }
    let start: usize = if v[0] == '+' { 1 } else { 0 };
    let mut i = start;
    let mut acc: u64 = 0;
    assert(spec_parse_unsigned(s@, max as nat) == scan_digits(v@, start as int, 0, max as nat));
    while i < n
        invariant
            v@ == s@,
            n == v@.len(),
            start <= i <= n,
            acc <= max,
            spec_parse_unsigned(s@, max as nat) == scan_digits(v@, i as int, acc as nat, max as nat),
        decreases n - i,
    {
        let ch: char = v[i];
        let c: u32 = ch as u32;
        assert(c == (v@[i as int] as u32));
        if c < 48 || c > 57 {
            return Err(IntErrorKind::InvalidDigit);
        }
        let next = acc * 10 + ((c - 48) as u64);
        if next > max as u64 {
            return Err(IntErrorKind::PosOverflow);
        }
        acc = next;
        i += 1;
    }
    Ok(acc as u32)
}

/// `s` read as a `u8`, as `s.parse::<u8>()` reads it.
pub fn parse_u8(s: &str) -> (r: Result<u8, IntErrorKind>)
    ensures
        match r {
            Ok(n) => spec_parse_unsigned(s@, u8::MAX as nat) == Ok::<nat, IntErrorKind>(n as nat),
            Err(k) => spec_parse_unsigned(s@, u8::MAX as nat) == Err::<nat, IntErrorKind>(k),
        },
{
    match parse_unsigned(s, 255) {
        Ok(n) => Ok(n as u8),
        Err(k) => Err(k),
    }
}

/// `s` read as a `u16`, as `s.parse::<u16>()` reads it.
pub fn parse_u16(s: &str) -> (r: Result<u16, IntErrorKind>)
    ensures
        match r {
            Ok(n) => spec_parse_unsigned(s@, u16::MAX as nat) == Ok::<nat, IntErrorKind>(n as nat),
            Err(k) => spec_parse_unsigned(s@, u16::MAX as nat) == Err::<nat, IntErrorKind>(k),
        },
{
    match parse_unsigned(s, 65535) {
        Ok(n) => Ok(n as u16),
        Err(k) => Err(k),
    }
}

/// `s` read as a `u32`, as `s.parse::<u32>()` reads it.
pub fn parse_u32(s: &str) -> (r: Result<u32, IntErrorKind>)
    ensures
        match r {
            Ok(n) => spec_parse_unsigned(s@, u32::MAX as nat) == Ok::<nat, IntErrorKind>(n as nat),
            Err(k) => spec_parse_unsigned(s@, u32::MAX as nat) == Err::<nat, IntErrorKind>(k),
        },
{
    parse_unsigned(s, 4294967295)
}

pub open spec fn spec_int_error_text(kind: IntErrorKind) -> Seq<char> {
    match kind {
        IntErrorKind::Empty => "ParseIntError { kind: Empty }"@,
        IntErrorKind::InvalidDigit => "ParseIntError { kind: InvalidDigit }"@,
        IntErrorKind::PosOverflow => "ParseIntError { kind: PosOverflow }"@,
    }
}

/// The error as the standard library's `ParseIntError` prints itself for
/// debugging.
pub fn int_error_text(kind: IntErrorKind) -> (r: &'static str)
    ensures
        r@ == spec_int_error_text(kind),
{
    match kind {
        IntErrorKind::Empty => "ParseIntError { kind: Empty }",
        IntErrorKind::InvalidDigit => "ParseIntError { kind: InvalidDigit }",
        IntErrorKind::PosOverflow => "ParseIntError { kind: PosOverflow }",
    }
}

/// The decimal numeral of an integer, with a leading `-` when it is negative.
pub open spec fn spec_signed_decimal(i: int) -> Seq<char> {
    if i < 0 {
        seq!['-'] + spec_decimal((-i) as nat)
    } else {
        spec_decimal(i as nat)
    }
}

/// The decimal numeral of `i`.
pub fn signed_decimal(i: i64) -> (r: String)
    ensures
        r@ == spec_signed_decimal(i as int),
{
    if i < 0 {
        let magnitude: u64 = ((-(i + 1)) as u64) + 1;
        let mut r = String::new();
        push_char(&mut r, '-');
        let digits = decimal(magnitude);
        r.append(digits.as_str());
        r
    } else {
        decimal(i as u64)
    }
}

/// Reading the numeral of a number gives the number back.
pub proof fn lemma_parse_reads_decimal(n: nat, max: nat)
    requires
        n <= max,
    ensures
        spec_parse_unsigned(spec_decimal(n), max) == Ok::<nat, IntErrorKind>(n),
{
    lemma_decimal_shape(n);
    lemma_scan_decimal(n, max);
}

proof fn lemma_decimal_shape(n: nat)
    ensures
        spec_decimal(n).len() >= 1,
        forall|i: int| 0 <= i < spec_decimal(n).len() ==> #[trigger] is_digit(spec_decimal(n)[i]),
    decreases n,
{
    if n >= 10 {
        lemma_decimal_shape(n / 10);
    }
}

/// Scanning a numeral from its start reads the number; scanning on from a
/// prefix of it continues with the prefix's value.
proof fn lemma_scan_decimal(n: nat, max: nat)
    requires
        n <= max,
    ensures
        scan_digits(spec_decimal(n), 0, 0, max) == Ok::<nat, IntErrorKind>(n),
    decreases n,
{
    lemma_decimal_shape(n);
    if n < 10 {
        assert(spec_decimal(n) =~= seq![((n + 48) as u8) as char]);
        assert(scan_digits(spec_decimal(n), 1, n, max) == Ok::<nat, IntErrorKind>(n));
    } else {
        let p = spec_decimal(n / 10);
        lemma_scan_decimal(n / 10, max);
        lemma_scan_extend(p, 0, 0, max, (n % 10) as nat, n / 10);
    }
}

/// Appending a digit to a fully scanned numeral scans one step further.
proof fn lemma_scan_extend(p: Seq<char>, i: int, acc: nat, max: nat, d: nat, total: nat)
    requires
        0 <= i <= p.len(),
        d < 10,
        scan_digits(p, i, acc, max) == Ok::<nat, IntErrorKind>(total),
        total * 10 + d <= max,
    ensures
        scan_digits(p.push(((d + 48) as u8) as char), i, acc, max) == Ok::<nat, IntErrorKind>(total * 10 + d),
    decreases p.len() - i,
{
    let q = p.push(((d + 48) as u8) as char);
    if i == p.len() {
        assert(acc == total);
        assert(q[i] == ((d + 48) as u8) as char);
        assert(digit_value(q[i]) == d);
        assert(scan_digits(q, i + 1, total * 10 + d, max) == Ok::<nat, IntErrorKind>(total * 10 + d));
    } else {
        assert(q[i] == p[i]);
        let next = acc * 10 + digit_value(p[i]);
        lemma_scan_extend(p, i + 1, next, max, d, total);
    }
}

} // verus!
