use vstd::prelude::*;

use crate::text::chars_of;

verus! {

/// Why a decimal integer could not be read from a string; the same four
/// outcomes as `core::num::IntErrorKind` for a decimal parse.
#[derive(PartialEq, Eq, Structural, Clone, Copy, Debug)]
pub enum IntErrorKind {
    Empty,
    InvalidDigit,
    PosOverflow,
    NegOverflow,
}

pub open spec fn is_digit(c: char) -> bool {
    '0' <= c && c <= '9'
}

pub open spec fn digit_value(c: char) -> int {
    c as int - 48
}

/// Reads the digits of `digits` left to right onto `acc` for a non-negative
/// value: the first character that is not a digit is an invalid digit, and the
/// first prefix whose value exceeds `hi` is an overflow.
pub open spec fn scan_up(digits: Seq<char>, acc: int, hi: int) -> Result<int, IntErrorKind>
    decreases digits.len(),
{
    if digits.len() == 0 {
        Ok(acc)
    } else if !is_digit(digits[0]) {
        Err(IntErrorKind::InvalidDigit)
    } else if acc * 10 + digit_value(digits[0]) > hi {
        Err(IntErrorKind::PosOverflow)
    } else {
        scan_up(digits.drop_first(), acc * 10 + digit_value(digits[0]), hi)
    }
}

/// The same as `scan_up` for a value read after a minus sign: digits are
/// subtracted and the first prefix below `lo` is an underflow.
pub open spec fn scan_down(digits: Seq<char>, acc: int, lo: int) -> Result<int, IntErrorKind>
    decreases digits.len(),
{
    if digits.len() == 0 {
        Ok(acc)
    } else if !is_digit(digits[0]) {
        Err(IntErrorKind::InvalidDigit)
    } else if acc * 10 - digit_value(digits[0]) < lo {
        Err(IntErrorKind::NegOverflow)
    } else {
        scan_down(digits.drop_first(), acc * 10 - digit_value(digits[0]), lo)
    }
}

/// What `str::parse` gives for an integer type with range `[lo, hi]`: an
/// optional `+` (or, for a signed type, `-`) followed by decimal digits only.
pub open spec fn parse_int(s: Seq<char>, signed: bool, lo: int, hi: int) -> Result<int, IntErrorKind> {
    if s.len() == 0 {
        Err(IntErrorKind::Empty)
    } else if s.len() == 1 && (s[0] == '+' || s[0] == '-') {
        Err(IntErrorKind::InvalidDigit)
    } else if s[0] == '+' {
        scan_up(s.drop_first(), 0, hi)
    } else if s[0] == '-' && signed {
        scan_down(s.drop_first(), 0, lo)
    } else {
        scan_up(s, 0, hi)
    }
}

pub open spec fn parse_u16_spec(s: Seq<char>) -> Result<int, IntErrorKind> {
    parse_int(s, false, 0, u16::MAX as int)
}

pub open spec fn parse_u32_spec(s: Seq<char>) -> Result<int, IntErrorKind> {
    parse_int(s, false, 0, u32::MAX as int)
}

pub open spec fn parse_u64_spec(s: Seq<char>) -> Result<int, IntErrorKind> {
    parse_int(s, false, 0, u64::MAX as int)
}

pub open spec fn parse_i64_spec(s: Seq<char>) -> Result<int, IntErrorKind> {
    parse_int(s, true, i64::MIN as int, i64::MAX as int)
}

/// `res` is the outcome `spec` gives, with the value at its integer type.
pub open spec fn agrees_i128(res: Result<i128, IntErrorKind>, spec: Result<int, IntErrorKind>) -> bool {
    match spec {
        Ok(v) => res == Ok::<i128, IntErrorKind>(v as i128),
        Err(e) => res == Err::<i128, IntErrorKind>(e),
    }
}

proof fn lemma_scan_up_range(digits: Seq<char>, acc: int, hi: int)
    requires
        0 <= acc <= hi,
    ensures
        scan_up(digits, acc, hi) matches Ok(v) ==> 0 <= v <= hi,
    decreases digits.len(),
{
    if digits.len() > 0 && is_digit(digits[0]) && acc * 10 + digit_value(digits[0]) <= hi {
        lemma_scan_up_range(digits.drop_first(), acc * 10 + digit_value(digits[0]), hi);
    }
}

proof fn lemma_scan_down_range(digits: Seq<char>, acc: int, lo: int)
    requires
        lo <= acc <= 0,
    ensures
        scan_down(digits, acc, lo) matches Ok(v) ==> lo <= v <= 0,
    decreases digits.len(),
{
    if digits.len() > 0 && is_digit(digits[0]) && acc * 10 - digit_value(digits[0]) >= lo {
        lemma_scan_down_range(digits.drop_first(), acc * 10 - digit_value(digits[0]), lo);
    }
}

/// The text that `ParseIntError` displays for each kind.
pub open spec fn int_error_text(kind: IntErrorKind) -> Seq<char> {
    match kind {
        IntErrorKind::Empty => "cannot parse integer from empty string"@,
        IntErrorKind::InvalidDigit => "invalid digit found in string"@,
        IntErrorKind::PosOverflow => "number too large to fit in target type"@,
        IntErrorKind::NegOverflow => "number too small to fit in target type"@,
    }
}

/// The message of a failed parse, as `ParseIntError` displays it.
pub fn int_error_message(kind: IntErrorKind) -> (res: &'static str)
    ensures
        res@ == int_error_text(kind),
{
    match kind {
        IntErrorKind::Empty => "cannot parse integer from empty string",
        IntErrorKind::InvalidDigit => "invalid digit found in string",
        IntErrorKind::PosOverflow => "number too large to fit in target type",
        IntErrorKind::NegOverflow => "number too small to fit in target type",
    }
}

/// Reads `chars[start..]` as in `scan_up` / `scan_down` starting from 0.
fn scan_digits(chars: &Vec<char>, start: usize, down: bool, lo: i128, hi: i128) -> (res: Result<i128, IntErrorKind>)
    requires
        start <= chars.len(),
        -(u64::MAX as int) <= lo <= 0 <= hi <= u64::MAX,
    ensures
        !down ==> agrees_i128(res, scan_up(chars@.subrange(start as int, chars.len() as int), 0, hi as int)),
        down ==> agrees_i128(res, scan_down(chars@.subrange(start as int, chars.len() as int), 0, lo as int)),
        res matches Ok(v) ==> lo <= v <= hi,
{
    let ghost whole = chars@.subrange(start as int, chars.len() as int);
    let mut acc: i128 = 0;
    let mut i: usize = start;
    while i < chars.len()
        invariant
            start <= i <= chars.len(),
            -(u64::MAX as int) <= lo <= 0 <= hi <= u64::MAX,
            lo <= acc <= hi,
            !down ==> acc >= 0,
            down ==> acc <= 0,
            whole == chars@.subrange(start as int, chars.len() as int),
            !down ==> scan_up(whole, 0, hi as int) == scan_up(
                chars@.subrange(i as int, chars.len() as int),
                acc as int,
                hi as int,
            ),
            down ==> scan_down(whole, 0, lo as int) == scan_down(
                chars@.subrange(i as int, chars.len() as int),
                acc as int,
                lo as int,
            ),
        decreases chars.len() - i,
    {
        let ghost rest = chars@.subrange(i as int, chars.len() as int);
        assert(rest[0] == chars@[i as int]);
        assert(rest.drop_first() =~= chars@.subrange(i + 1, chars.len() as int));
        let c = chars[i];
        if !('0' <= c && c <= '9') {
            return Err(IntErrorKind::InvalidDigit);
        }
        let d = (c as u32 - 48) as i128;
        assert(d == digit_value(c));
        if down {
            let next = acc * 10 - d;
            if next < lo {
                return Err(IntErrorKind::NegOverflow);
            }
            acc = next;
        } else {
            let next = acc * 10 + d;
            if next > hi {
                return Err(IntErrorKind::PosOverflow);
            }
            acc = next;
        }
        i = i + 1;
    }
    assert(chars@.subrange(i as int, chars.len() as int).len() == 0);
    Ok(acc)
}

/// Reads a decimal integer in `[lo, hi]` from `s`, as `str::parse` does for
/// an integer type of that range.
fn parse_in_range(s: &str, signed: bool, lo: i128, hi: i128) -> (res: Result<i128, IntErrorKind>)
    requires
        -(u64::MAX as int) <= lo <= 0 <= hi <= u64::MAX,
    ensures
        agrees_i128(res, parse_int(s@, signed, lo as int, hi as int)),
        res matches Ok(v) ==> lo <= v <= hi,
        parse_int(s@, signed, lo as int, hi as int) matches Ok(v) ==> lo <= v <= hi,
{
    proof {
        if s@.len() > 0 {
            lemma_scan_up_range(s@.drop_first(), 0, hi as int);
            lemma_scan_down_range(s@.drop_first(), 0, lo as int);
            lemma_scan_up_range(s@, 0, hi as int);
        }
    }
    let chars = chars_of(s);
    let n = chars.len();
    if n == 0 {
        return Err(IntErrorKind::Empty);
    }
    let first = chars[0];
    if n == 1 && (first == '+' || first == '-') {
        return Err(IntErrorKind::InvalidDigit);
    }
    assert(chars@.subrange(1, n as int) =~= s@.drop_first());
    assert(chars@.subrange(0, n as int) =~= s@);
    if first == '+' {
        scan_digits(&chars, 1, false, lo, hi)
    } else if first == '-' && signed {
        scan_digits(&chars, 1, true, lo, hi)
    } else {
        scan_digits(&chars, 0, false, lo, hi)
    }
}

/// `s.parse::<u16>()`.
pub fn parse_u16(s: &str) -> (res: Result<u16, IntErrorKind>)
    ensures
        match parse_u16_spec(s@) {
            Ok(v) => res == Ok::<u16, IntErrorKind>(v as u16),
            Err(e) => res == Err::<u16, IntErrorKind>(e),
        },
        parse_u16_spec(s@) is Ok ==> 0 <= parse_u16_spec(s@)->Ok_0 <= u16::MAX,
{
    match parse_in_range(s, false, 0, 0xffff) {
        Ok(v) => Ok(v as u16),
        Err(e) => Err(e),
    }
}

/// `s.parse::<u32>()`.
pub fn parse_u32(s: &str) -> (res: Result<u32, IntErrorKind>)
    ensures
        match parse_u32_spec(s@) {
            Ok(v) => res == Ok::<u32, IntErrorKind>(v as u32),
            Err(e) => res == Err::<u32, IntErrorKind>(e),
        },
        parse_u32_spec(s@) is Ok ==> 0 <= parse_u32_spec(s@)->Ok_0 <= u32::MAX,
{
    match parse_in_range(s, false, 0, 0xffff_ffff) {
        Ok(v) => Ok(v as u32),
        Err(e) => Err(e),
    }
}

/// `s.parse::<u64>()`.
pub fn parse_u64(s: &str) -> (res: Result<u64, IntErrorKind>)
    ensures
        match parse_u64_spec(s@) {
            Ok(v) => res == Ok::<u64, IntErrorKind>(v as u64),
            Err(e) => res == Err::<u64, IntErrorKind>(e),
        },
        parse_u64_spec(s@) is Ok ==> 0 <= parse_u64_spec(s@)->Ok_0 <= u64::MAX,
{
    match parse_in_range(s, false, 0, 0xffff_ffff_ffff_ffff) {
        Ok(v) => Ok(v as u64),
        Err(e) => Err(e),
    }
}

/// `s.parse::<i64>()`.
pub fn parse_i64(s: &str) -> (res: Result<i64, IntErrorKind>)
    ensures
        match parse_i64_spec(s@) {
            Ok(v) => res == Ok::<i64, IntErrorKind>(v as i64),
            Err(e) => res == Err::<i64, IntErrorKind>(e),
        },
        parse_i64_spec(s@) is Ok ==> i64::MIN <= parse_i64_spec(s@)->Ok_0 <= i64::MAX,
{
    match parse_in_range(s, true, -0x8000_0000_0000_0000, 0x7fff_ffff_ffff_ffff) {
        Ok(v) => Ok(v as i64),
        Err(e) => Err(e),
    }
}

} // verus!
