//! The counter reader: from the text of the counter file to a counter value.
//!
//! The file holds the cumulative active time in milliseconds as a decimal
//! number.  A tick whose file could not be read, or whose text is not such a
//! number, is not an error: it counts as a reading of zero, so that the
//! monitor keeps running.

use vstd::prelude::*;

use crate::text::chars_of;

verus! {

/// One reading of the cumulative counter.
#[derive(Clone, Copy, Debug, PartialEq, Eq, Structural)]
pub struct CounterSample {
    pub raw_value: u64,
}

/// The characters that count as white space around the number: those with
/// the Unicode property `White_Space`.
pub open spec fn is_whitespace(c: char) -> bool {
    let code = c as u32;
    ||| 0x09 <= code <= 0x0d
    ||| code == 0x20
    ||| code == 0x85
    ||| code == 0xa0
    ||| code == 0x1680
    ||| 0x2000 <= code <= 0x200a
    ||| code == 0x2028
    ||| code == 0x2029
    ||| code == 0x202f
    ||| code == 0x205f
    ||| code == 0x3000
}

/// Whether `c` is one of the digits `0` to `9`.
pub open spec fn is_digit(c: char) -> bool {
    0x30 <= c as u32 <= 0x39
}

/// The number that the digit `c` stands for.
pub open spec fn digit_value(c: char) -> nat {
    (c as u32 - 0x30) as nat
}

/// `text` without the white space at its two ends.
pub open spec fn trimmed(text: Seq<char>) -> Seq<char>
    decreases text.len(),
{
    if text.len() > 0 && is_whitespace(text.first()) {
        trimmed(text.drop_first())
    } else if text.len() > 0 && is_whitespace(text.last()) {
        trimmed(text.drop_last())
    } else {
        text
    }
}

/// Whether `text` holds digits only.
pub open spec fn all_digits(text: Seq<char>) -> bool {
    forall|i: int| 0 <= i < text.len() ==> is_digit(#[trigger] text[i])
}

/// The number that a run of decimal digits spells, most significant digit
/// first.
pub open spec fn decimal_value(digits: Seq<char>) -> nat
    decreases digits.len(),
{
    if digits.len() == 0 {
        0
    } else {
        10 * decimal_value(digits.drop_last()) + digit_value(digits.last())
    }
}

/// `text` without a plus sign in front, if it has one.
pub open spec fn unsigned_part(text: Seq<char>) -> Seq<char> {
    if text.len() > 0 && text.first() == '+' {
        text.drop_first()
    } else {
        text
    }
}

/// The counter value that `text` spells: white space around it aside, an
/// optional plus sign and then at least one decimal digit, with a value that
/// fits in 64 bits.  Any other text spells none.
pub open spec fn parsed_counter(text: Seq<char>) -> Option<u64> {
    let digits = unsigned_part(trimmed(text));
    if digits.len() > 0 && all_digits(digits) && decimal_value(digits) <= u64::MAX {
        Some(decimal_value(digits) as u64)
    } else {
        None
    }
}

/// The value a tick works with, given what was read from the counter file
/// (`None` when the file could not be read): the number the text spells, and
/// zero when there is no text or it spells none.
pub open spec fn counter_reading(content: Option<Seq<char>>) -> u64 {
    match content {
        Some(text) => match parsed_counter(text) {
            Some(value) => value,
            None => 0,
        },
        None => 0,
    }
}

/// The characters of the text that was read, if any was.
pub open spec fn content_view(content: Option<&str>) -> Option<Seq<char>> {
    match content {
        Some(text) => Some(text@),
        None => None,
    }
}

/// Whether `c` is white space.
pub fn char_is_whitespace(c: char) -> (white: bool)
    ensures
        white == is_whitespace(c),
{
    let code: u32 = c as u32;
    (0x09 <= code && code <= 0x0d) || code == 0x20 || code == 0x85 || code == 0xa0 || code
        == 0x1680 || (0x2000 <= code && code <= 0x200a) || code == 0x2028 || code == 0x2029
        || code == 0x202f || code == 0x205f || code == 0x3000
}

/// The part of `text` that `trimmed` keeps is the one between the first and
/// the last character that is not white space.
proof fn lemma_trimmed_is_subrange(text: Seq<char>, start: int, end: int)
    requires
        0 <= start <= end <= text.len(),
        forall|i: int| 0 <= i < start ==> is_whitespace(#[trigger] text[i]),
        forall|i: int| end <= i < text.len() ==> is_whitespace(#[trigger] text[i]),
        start < end ==> !is_whitespace(text[start]) && !is_whitespace(text[end - 1]),
    ensures
        trimmed(text) == text.subrange(start, end),
    decreases text.len(),
{
    if text.len() > 0 && is_whitespace(text.first()) {
        let rest = text.drop_first();
        if start == 0 {
            assert(end == 0);
            lemma_trimmed_is_subrange(rest, 0, 0);
            assert(rest.subrange(0, 0) =~= text.subrange(0, 0));
        } else {
            lemma_trimmed_is_subrange(rest, start - 1, end - 1);
            assert(rest.subrange(start - 1, end - 1) =~= text.subrange(start, end));
        }
    } else if text.len() > 0 && is_whitespace(text.last()) {
        let rest = text.drop_last();
        assert(start == 0);
        assert(end < text.len());
        lemma_trimmed_is_subrange(rest, start, end);
        assert(rest.subrange(start, end) =~= text.subrange(start, end));
    } else {
        assert(start == 0);
        assert(end == text.len());
        assert(text.subrange(start, end) =~= text);
    }
}

/// A run of digits spells at least what any of its prefixes spells.
proof fn lemma_decimal_value_grows(digits: Seq<char>, n: int)
    requires
        0 <= n <= digits.len(),
    ensures
        decimal_value(digits.take(n)) <= decimal_value(digits),
    decreases digits.len(),
{
    if n == digits.len() {
        assert(digits.take(n) =~= digits);
    } else {
        lemma_decimal_value_grows(digits.drop_last(), n);
        assert(digits.drop_last().take(n) =~= digits.take(n));
    }
}

/// Parses the text of the counter file.
pub fn parse_counter(text: &str) -> (value: Option<u64>)
    ensures
        value == parsed_counter(text@),
{
    let chars = chars_of(text);
    let mut start: usize = 0;
    while start < chars.len() && char_is_whitespace(chars[start])
        invariant
            start <= chars.len(),
            forall|i: int| 0 <= i < start ==> is_whitespace(#[trigger] chars@[i]),
        decreases chars.len() - start,
    {
        start += 1;
    }
    let mut end: usize = chars.len();
    while end > start && char_is_whitespace(chars[end - 1])
        invariant
            start <= end <= chars.len(),
            forall|i: int| end <= i < chars.len() ==> is_whitespace(#[trigger] chars@[i]),
        decreases end,
    {
        end -= 1;
    }
    proof {
        lemma_trimmed_is_subrange(chars@, start as int, end as int);
    }
    if start < end && chars[start] == '+' {
        start += 1;
    }
    let ghost digits = unsigned_part(trimmed(text@));
    assert(digits =~= chars@.subrange(start as int, end as int));
    if start == end {
        return None;
    }
    let mut value: u64 = 0;
    let mut i: usize = start;
    while i < end
        invariant
            start <= i <= end <= chars.len(),
            digits == unsigned_part(trimmed(text@)),
            digits == chars@.subrange(start as int, end as int),
            all_digits(digits.take(i - start)),
            value == decimal_value(digits.take(i - start)),
        decreases end - i,
    {
        let code: u32 = chars[i] as u32;
        if code < 0x30 || code > 0x39 {
            assert(!is_digit(digits[i - start]));
            return None;
        }
        let digit: u64 = (code - 0x30) as u64;
        proof {
            let longer = digits.take(i + 1 - start);
            assert(longer.drop_last() =~= digits.take(i - start));
            assert(longer.last() == chars@[i as int]);
            assert(decimal_value(longer) == 10 * value + digit);
            lemma_decimal_value_grows(digits, i + 1 - start);
        }
        if value > (u64::MAX - digit) / 10 {
            return None;
        }
        value = value * 10 + digit;
        i += 1;
    }
    assert(digits.take(end - start) =~= digits);
    Some(value)
}

/// The counter reader's result for one tick.  `content` is the text of the
/// counter file, or `None` when the file could not be read.
///
/// A failed read and a text that is no number both give a reading of zero.
pub fn read_counter(content: Option<&str>) -> (sample: CounterSample)
    ensures
        sample.raw_value == counter_reading(content_view(content)),
{
    let raw_value: u64 = match content {
        Some(text) => match parse_counter(text) {
            Some(value) => value,
            None => 0,
        },
        None => 0,
    };
    CounterSample { raw_value }
}

} // verus!
