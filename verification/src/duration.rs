//! Duration strings of the configuration surface: a whole number followed by
//! `ms`, `s` or `m` (any letter case), with surrounding ASCII whitespace
//! ignored, parsed to milliseconds.

use vstd::prelude::*;

verus! {

use vstd::string::StringSliceAdditionalSpecFns;

use crate::error::MyError;

/// ASCII whitespace, as the trimming of a duration string ignores it.
pub open spec fn is_ascii_whitespace(b: u8) -> bool {
    b == 9 || b == 10 || b == 11 || b == 12 || b == 13 || b == 32
}

/// An ASCII decimal digit.
pub open spec fn is_ascii_digit(b: u8) -> bool {
    48 <= b <= 57
}

/// ASCII lower-casing of one byte.
pub open spec fn lower_byte(b: u8) -> u8 {
    if 65 <= b <= 90 {
        (b + 32) as u8
    } else {
        b
    }
}

/// The bytes with leading ASCII whitespace removed.
pub open spec fn trim_front(s: Seq<u8>) -> Seq<u8>
    decreases s.len(),
{
    if s.len() > 0 && is_ascii_whitespace(s.first()) {
        trim_front(s.drop_first())
    } else {
        s
    }
}

/// The bytes with trailing ASCII whitespace removed.
pub open spec fn trim_back(s: Seq<u8>) -> Seq<u8>
    decreases s.len(),
{
    if s.len() > 0 && is_ascii_whitespace(s.last()) {
        trim_back(s.drop_last())
    } else {
        s
    }
}

/// The bytes with whitespace removed at both ends.
pub open spec fn trimmed(s: Seq<u8>) -> Seq<u8> {
    trim_back(trim_front(s))
}

/// Whether every byte is a decimal digit.
pub open spec fn all_digits(s: Seq<u8>) -> bool {
    forall|i: int| 0 <= i < s.len() ==> is_ascii_digit(#[trigger] s[i])
}

/// The number a string of decimal digits denotes.
pub open spec fn digits_value(s: Seq<u8>) -> int
    decreases s.len(),
{
    if s.len() == 0 {
        0
    } else {
        digits_value(s.drop_last()) * 10 + (s.last() - 48)
    }
}

/// What a numeric part scaled by its unit yields: an error on an empty or
/// non-numeric part, an error when the number itself overflows 64 bits, an
/// error when only the scaling does, the scaled milliseconds otherwise.
pub open spec fn scaled_duration(digits: Seq<u8>, unit_ms: int) -> Result<u64, MyError> {
    if digits.len() == 0 || !all_digits(digits) {
        Err(MyError::InvalidDurationNumber)
    } else if digits_value(digits) > u64::MAX {
        Err(MyError::InvalidDurationNumber)
    } else if digits_value(digits) * unit_ms > u64::MAX {
        Err(MyError::DurationOverflow)
    } else {
        Ok((digits_value(digits) * unit_ms) as u64)
    }
}

/// What parsing a duration string yields: after trimming, a `ms`, `s` or `m`
/// suffix (in that order of preference, any letter case) picks the unit, and
/// the rest is the whole number of units.
pub open spec fn parse_duration_spec(raw: Seq<u8>) -> Result<u64, MyError> {
    let t = trimmed(raw);
    if t.len() >= 2 && lower_byte(t[t.len() - 2]) == 109 && lower_byte(t[t.len() - 1]) == 115 {
        scaled_duration(t.take(t.len() - 2), 1)
    } else if t.len() >= 1 && lower_byte(t.last()) == 115 {
        scaled_duration(t.drop_last(), 1000)
    } else if t.len() >= 1 && lower_byte(t.last()) == 109 {
        scaled_duration(t.drop_last(), 60000)
    } else {
        Err(MyError::InvalidDurationUnit)
    }
}

/// A scan that stops at the first non-whitespace byte finds `trim_front`.
proof fn lemma_trim_front_at(s: Seq<u8>, k: int)
    requires
        0 <= k <= s.len(),
        forall|i: int| 0 <= i < k ==> is_ascii_whitespace(#[trigger] s[i]),
        k < s.len() ==> !is_ascii_whitespace(s[k]),
    ensures
        trim_front(s) == s.subrange(k, s.len() as int),
    decreases k,
{
    if k == 0 {
        assert(trim_front(s) =~= s.subrange(0, s.len() as int));
    } else {
        assert(is_ascii_whitespace(s.first()));
        let d = s.drop_first();
        assert(forall|i: int| 0 <= i < k - 1 ==> is_ascii_whitespace(#[trigger] d[i]));
        lemma_trim_front_at(d, k - 1);
        assert(d.subrange(k - 1, d.len() as int) =~= s.subrange(k, s.len() as int));
    }
}

/// A scan that stops at the last non-whitespace byte finds `trim_back`.
proof fn lemma_trim_back_at(s: Seq<u8>, e: int)
    requires
        0 <= e <= s.len(),
        forall|i: int| e <= i < s.len() ==> is_ascii_whitespace(#[trigger] s[i]),
        e > 0 ==> !is_ascii_whitespace(s[e - 1]),
    ensures
        trim_back(s) == s.subrange(0, e),
    decreases s.len(),
{
    if e == s.len() {
        if s.len() > 0 && is_ascii_whitespace(s.last()) {
            assert(!is_ascii_whitespace(s[e - 1]));
        }
        assert(trim_back(s) =~= s.subrange(0, e));
    } else {
        assert(is_ascii_whitespace(s.last()));
        let d = s.drop_last();
        lemma_trim_back_at(d, e);
        assert(d.subrange(0, e) =~= s.subrange(0, e));
    }
}

/// The digits are nonnegative as a number.
proof fn lemma_digits_value_nonneg(s: Seq<u8>)
    requires
        all_digits(s),
    ensures
        digits_value(s) >= 0,
    decreases s.len(),
{
    if s.len() > 0 {
        assert(is_ascii_digit(s[s.len() - 1]));
        lemma_digits_value_nonneg(s.drop_last());
    }
}

/// A prefix of a digit string never denotes more than the whole string.
proof fn lemma_digits_value_prefix_le(s: Seq<u8>, j: int)
    requires
        all_digits(s),
        0 <= j <= s.len(),
    ensures
        digits_value(s.take(j)) <= digits_value(s),
    decreases s.len() - j,
{
    if j == s.len() {
        assert(s.take(j) =~= s);
    } else {
        let t = s.take(j + 1);
        assert(t.drop_last() =~= s.take(j));
        assert(is_ascii_digit(s[j]));
        lemma_digits_value_nonneg(s.take(j));
        assert(digits_value(s.take(j)) <= digits_value(t));
        lemma_digits_value_prefix_le(s, j + 1);
    }
}

/// Executable twin of `is_ascii_whitespace`.
fn byte_is_whitespace(b: u8) -> (r: bool)
    ensures
        r == is_ascii_whitespace(b),
{
    b == 9 || b == 10 || b == 11 || b == 12 || b == 13 || b == 32
}

/// Executable twin of `lower_byte`.
fn byte_lower(b: u8) -> (r: u8)
    ensures
        r == lower_byte(b),
{
    if 65 <= b && b <= 90 {
        b + 32
    } else {
        b
    }
}

/// Parses the numeric part `bytes[start..digits_end]` and scales it by the
/// unit.
fn parse_digits_scaled(bytes: &[u8], start: usize, digits_end: usize, unit_ms: u64) -> (r: Result<
    u64,
    MyError,
>)
    requires
        start <= digits_end <= bytes@.len(),
        unit_ms >= 1,
    ensures
        r == scaled_duration(bytes@.subrange(start as int, digits_end as int), unit_ms as int),
{
    let ghost digits = bytes@.subrange(start as int, digits_end as int);

    if start == digits_end {
        return Err(MyError::InvalidDurationNumber);
    }

    // Every byte of the numeric part must be a digit.
    let mut i: usize = start;
    while i < digits_end
        invariant
            start <= i <= digits_end <= bytes@.len(),
            digits == bytes@.subrange(start as int, digits_end as int),
            forall|k: int| 0 <= k < i - start ==> is_ascii_digit(#[trigger] digits[k]),
        decreases digits_end - i,
    {
        let b = bytes[i];
        if !(48 <= b && b <= 57) {
            proof {
                assert(digits[i - start] == b);
                assert(!is_ascii_digit(digits[i - start]));
                assert(!all_digits(digits));
            }
            return Err(MyError::InvalidDurationNumber);
        }
        i = i + 1;
    }
    assert(all_digits(digits));

    // Accumulate the value; a 64-bit overflow anywhere means the whole digit
    // string overflows, since prefixes only grow.
    let mut acc: u64 = 0;
    let mut j: usize = start;
    while j < digits_end
        invariant
            start <= j <= digits_end <= bytes@.len(),
            digits == bytes@.subrange(start as int, digits_end as int),
            all_digits(digits),
            acc == digits_value(digits.take(j - start)),
        decreases digits_end - j,
    {
        let b = bytes[j];
        proof {
            assert(digits[j - start] == b);
            assert(is_ascii_digit(digits[j - start]));
            assert(digits.take(j - start + 1).drop_last() =~= digits.take(j - start));
            assert(digits.take(j - start + 1).last() == digits[j - start]);
            assert(digits_value(digits.take(j - start + 1)) == acc * 10 + (b - 48));
        }
        let shifted = match acc.checked_mul(10) {
            Some(v) => v,
            None => {
                proof {
                    assert(digits_value(digits.take(j - start + 1)) > u64::MAX);
                    lemma_digits_value_prefix_le(digits, j - start + 1);
                    assert(digits_value(digits) > u64::MAX);
                }
                return Err(MyError::InvalidDurationNumber);
            },
        };
        let next = match shifted.checked_add((b - 48) as u64) {
            Some(v) => v,
            None => {
                proof {
                    assert(digits_value(digits.take(j - start + 1)) > u64::MAX);
                    lemma_digits_value_prefix_le(digits, j - start + 1);
                    assert(digits_value(digits) > u64::MAX);
                }
                return Err(MyError::InvalidDurationNumber);
            },
        };
        acc = next;
        j = j + 1;
    }
    proof {
        assert(digits.take(digits.len() as int) =~= digits);
    }

    match acc.checked_mul(unit_ms) {
        Some(v) => Ok(v),
        None => Err(MyError::DurationOverflow),
    }
}

/// Parses a duration of the configuration surface — a whole number followed
/// by `ms`, `s` or `m` — to milliseconds.
pub fn parse_duration(s: &str) -> (duration_ms: Result<u64, MyError>)
    ensures
        duration_ms == parse_duration_spec(s.spec_bytes()),
{
    let bytes = s.as_bytes();
    let n = bytes.len();

    let mut start: usize = 0;
    while start < n && byte_is_whitespace(bytes[start])
        invariant
            0 <= start <= n,
            n == bytes@.len(),
            forall|i: int| 0 <= i < start ==> is_ascii_whitespace(#[trigger] bytes@[i]),
        decreases n - start,
    {
        start = start + 1;
    }
    let mut end: usize = n;
    while end > start && byte_is_whitespace(bytes[end - 1])
        invariant
            start <= end <= n,
            n == bytes@.len(),
            forall|i: int| end <= i < n ==> is_ascii_whitespace(#[trigger] bytes@[i]),
        decreases end,
    {
        end = end - 1;
    }

    let ghost t = trimmed(bytes@);
    proof {
        lemma_trim_front_at(bytes@, start as int);
        let f = bytes@.subrange(start as int, n as int);
        lemma_trim_back_at(f, end - start);
        assert(f.subrange(0, end - start) =~= bytes@.subrange(start as int, end as int));
        assert(t == bytes@.subrange(start as int, end as int));
    }

    // Pick the unit off the suffix; `ms` takes precedence over `s` and `m`.
    let t_len = end - start;
    let (digits_end, unit_ms): (usize, u64) = if t_len >= 2 && byte_lower(bytes[end - 2]) == 109
        && byte_lower(bytes[end - 1]) == 115 {
        (end - 2, 1)
    } else if t_len >= 1 && byte_lower(bytes[end - 1]) == 115 {
        (end - 1, 1000)
    } else if t_len >= 1 && byte_lower(bytes[end - 1]) == 109 {
        (end - 1, 60000)
    } else {
        return Err(MyError::InvalidDurationUnit);
    };

    proof {
        let digits = bytes@.subrange(start as int, digits_end as int);
        if digits_end == end - 2 {
            assert(digits =~= t.take(t.len() - 2));
        } else {
            assert(digits =~= t.drop_last());
        }
    }

    parse_digits_scaled(bytes, start, digits_end, unit_ms)
}

} // verus!
