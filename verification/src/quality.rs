//! The JPEG quality setting, read from text that a person typed.
//!
//! Anything that is not a number from 0 to 100 gives the default: a bad
//! setting never fails a run.

use vstd::prelude::*;

verus! {

/// The quality used where none is given, or none that can be used.
pub const DEFAULT_JPEG_QUALITY: u8 = 75;

/// The best quality there is.
pub const MAX_JPEG_QUALITY: u8 = 100;

/// Whether `c` is white space: one of the characters with the Unicode
/// property `White_Space`.
pub open spec fn is_whitespace(c: char) -> bool {
    let n = c as u32;
    (0x09 <= n <= 0x0D) || n == 0x20 || n == 0x85 || n == 0xA0 || n == 0x1680 || (0x2000 <= n
        <= 0x200A) || n == 0x2028 || n == 0x2029 || n == 0x202F || n == 0x205F || n == 0x3000
}

/// Whether `c` is one of `0` to `9`.
pub open spec fn is_digit(c: char) -> bool {
    0x30 <= c as u32 <= 0x39
}

/// The number of white space characters that `s` begins with.
pub open spec fn leading_whitespace(s: Seq<char>) -> nat
    decreases s.len(),
{
    if s.len() > 0 && is_whitespace(s[0]) {
        1 + leading_whitespace(s.drop_first())
    } else {
        0
    }
}

/// The number of white space characters that `s` ends with.
pub open spec fn trailing_whitespace(s: Seq<char>) -> nat
    decreases s.len(),
{
    if s.len() > 0 && is_whitespace(s.last()) {
        1 + trailing_whitespace(s.drop_last())
    } else {
        0
    }
}

/// `s` without the white space at its two ends.
pub open spec fn trimmed(s: Seq<char>) -> Seq<char> {
    let from = leading_whitespace(s) as int;
    let rest = s.subrange(from, s.len() as int);
    rest.subrange(0, rest.len() - trailing_whitespace(rest))
}

/// The number that a sequence of digits writes, in base ten.
pub open spec fn decimal_value(digits: Seq<char>) -> nat
    decreases digits.len(),
{
    if digits.len() == 0 {
        0
    } else {
        decimal_value(digits.drop_last()) * 10 + (digits.last() as u32 - 0x30) as nat
    }
}

/// Whether `s` holds digits only.
pub open spec fn all_digits(s: Seq<char>) -> bool {
    forall|i: int| 0 <= i < s.len() ==> is_digit(#[trigger] s[i])
}

/// The number that `s` writes: digits, with or without one `+` before them.
/// No number where `s` holds anything else or no digit at all.
pub open spec fn unsigned_number(s: Seq<char>) -> Option<nat> {
    let digits = if s.len() > 0 && s[0] == '+' {
        s.subrange(1, s.len() as int)
    } else {
        s
    };
    if digits.len() > 0 && all_digits(digits) {
        Some(decimal_value(digits))
    } else {
        None
    }
}

/// The JPEG quality that `text` asks for: its number, white space around it
/// aside, where that is at most 100, and the default for everything else.
pub open spec fn jpeg_quality_of(text: Seq<char>) -> u8 {
    match unsigned_number(trimmed(text)) {
        Some(n) => if n <= MAX_JPEG_QUALITY {
            n as u8
        } else {
            DEFAULT_JPEG_QUALITY
        },
        None => DEFAULT_JPEG_QUALITY,
    }
}

/// Every text gives a quality that an encoder accepts.
pub proof fn lemma_quality_in_range(text: Seq<char>)
    ensures
        jpeg_quality_of(text) <= MAX_JPEG_QUALITY,
{
}

/// A number above 100 gives the default quality.
pub proof fn lemma_out_of_range_is_default(text: Seq<char>)
    requires
        unsigned_number(trimmed(text)) matches Some(n) && n > MAX_JPEG_QUALITY,
    ensures
        jpeg_quality_of(text) == DEFAULT_JPEG_QUALITY,
{
}

proof fn lemma_leading(s: Seq<char>, i: int)
    requires
        0 <= i <= s.len(),
        forall|k: int| 0 <= k < i ==> is_whitespace(#[trigger] s[k]),
        i == s.len() || !is_whitespace(s[i]),
    ensures
        leading_whitespace(s) == i,
    decreases i,
{
    if i > 0 {
        let r = s.drop_first();
        assert(forall|k: int| 0 <= k < i - 1 ==> r[k] == s[k + 1]);
        lemma_leading(r, i - 1);
    }
}

proof fn lemma_trailing(s: Seq<char>, i: int)
    requires
        0 <= i <= s.len(),
        forall|k: int| i <= k < s.len() ==> is_whitespace(#[trigger] s[k]),
        i == 0 || !is_whitespace(s[i - 1]),
    ensures
        trailing_whitespace(s) == s.len() - i,
    decreases s.len(),
{
    if i < s.len() {
        let r = s.drop_last();
        assert(forall|k: int| i <= k < r.len() ==> r[k] == s[k]);
        lemma_trailing(r, i);
    }
}

proof fn lemma_value_grows(digits: Seq<char>)
    requires
        digits.len() > 0,
        is_digit(digits.last()),
    ensures
        decimal_value(digits) >= decimal_value(digits.drop_last()) * 10,
        decimal_value(digits) <= decimal_value(digits.drop_last()) * 10 + 9,
{
}

fn char_is_whitespace(c: char) -> (r: bool)
    ensures
        r == is_whitespace(c),
{
    let n = c as u32;
    (0x09 <= n && n <= 0x0D) || n == 0x20 || n == 0x85 || n == 0xA0 || n == 0x1680 || (0x2000 <= n
        && n <= 0x200A) || n == 0x2028 || n == 0x2029 || n == 0x202F || n == 0x205F || n == 0x3000
}

/// The JPEG quality that `text` asks for, from 0 to 100.
pub fn resolve_jpeg_quality(text: &str) -> (quality: u8)
    ensures
        quality == jpeg_quality_of(text@),
        quality <= MAX_JPEG_QUALITY,
{
    let len = text.unicode_len();
    let mut from: usize = 0;
    while from < len && char_is_whitespace(text.get_char(from))
        invariant
            from <= len == text@.len(),
            forall|k: int| 0 <= k < from ==> is_whitespace(#[trigger] text@[k]),
        decreases len - from,
    {
        from += 1;
    }
    let ghost rest = text@.subrange(from as int, len as int);
    let mut to: usize = len;
    while to > from && char_is_whitespace(text.get_char(to - 1))
        invariant
            from <= to <= len == text@.len(),
            forall|k: int| to <= k < len ==> is_whitespace(#[trigger] text@[k]),
        decreases to,
    {
        to -= 1;
    }
    let ghost t = text@.subrange(from as int, to as int);
    proof {
        lemma_leading(text@, from as int);
        assert(forall|k: int| 0 <= k < rest.len() ==> rest[k] == text@[from + k]);
        lemma_trailing(rest, to - from);
        assert(trimmed(text@) =~= t);
    }
    let mut i: usize = from;
    if i < to && text.get_char(i) == '+' {
        i += 1;
    }
    let first: usize = i;
    let ghost digits = text@.subrange(first as int, to as int);
    proof {
        if t.len() > 0 && t[0] == '+' {
            assert(t.subrange(1, t.len() as int) =~= digits);
        } else {
            assert(t =~= digits);
        }
    }
    if first == to {
        return DEFAULT_JPEG_QUALITY;
    }
    assert(all_digits(digits) ==> unsigned_number(trimmed(text@)) == Some(decimal_value(digits)));
    assert(!all_digits(digits) ==> unsigned_number(trimmed(text@)) is None);
    let mut value: u32 = 0;
    while i < to
        invariant
            first <= i <= to <= len == text@.len(),
            all_digits(digits) ==> unsigned_number(trimmed(text@)) == Some(decimal_value(digits)),
            !all_digits(digits) ==> unsigned_number(trimmed(text@)) is None,
            digits == text@.subrange(first as int, to as int),
            all_digits(digits.subrange(0, i - first)),
            value <= MAX_JPEG_QUALITY ==> value == decimal_value(digits.subrange(0, i - first)),
            value > MAX_JPEG_QUALITY ==> decimal_value(digits.subrange(0, i - first))
                > MAX_JPEG_QUALITY,
            value <= 1009,
        decreases to - i,
    {
        let c = text.get_char(i);
        let n = c as u32;
        let ghost before = digits.subrange(0, i - first);
        let ghost after = digits.subrange(0, i - first + 1);
        proof {
            assert(after.drop_last() =~= before);
            assert(after.last() == c);
        }
        if !(0x30 <= n && n <= 0x39) {
            proof {
                assert(digits[i - first] == c);
                assert(!is_digit(digits[i - first]));
            }
            return DEFAULT_JPEG_QUALITY;
        }
        proof {
            assert forall|k: int| 0 <= k < after.len() implies is_digit(#[trigger] after[k]) by {
                if k < before.len() {
                    assert(after[k] == before[k]);
                }
            }
            lemma_value_grows(after);
        }
        if value <= 100 {
            value = value * 10 + (n - 0x30);
        }
        i += 1;
    }
    proof {
        assert(digits.subrange(0, to - first) =~= digits);
    }
    if value <= 100 {
        value as u8
    } else {
        DEFAULT_JPEG_QUALITY
    }
}

} // verus!
