//! Reading what was typed: trimming white space, comparing without regard
//! to case, and reading an index.

use crate::text::{chars_of, string_of};
use vstd::prelude::*;
use vstd::string::*;

verus! {

/// What `str::to_lowercase` makes of `text`.
pub uninterp spec fn lowercase(text: Seq<char>) -> Seq<char>;

/// Assumed of `str::to_lowercase`: what it returns depends on the text
/// alone (it follows the case mappings of Unicode, without a locale). The
/// result is given the name `lowercase` of the text, and nothing more is
/// claimed of it.
pub assume_specification[ str::to_lowercase ](s: &str) -> (lower: String)
    ensures
        lower@ == lowercase(s@),
;

/// Assumed of `String::pop`: it takes the last character off the string
/// and returns it; an empty string is left as it is, and `None` returned.
pub assume_specification[ String::pop ](s: &mut String) -> (last: Option<char>)
    ensures
        old(s)@.len() == 0 ==> last is None && final(s)@ == old(s)@,
        old(s)@.len() > 0 ==> last == Some(old(s)@.last()) && final(s)@ == old(s)@.drop_last(),
;

/// Whether `c` is white space: a character with the Unicode property
/// `White_Space`.
pub open spec fn is_whitespace(c: char) -> bool {
    let code = c as u32;
    ||| 0x09 <= code <= 0x0D
    ||| code == 0x20
    ||| code == 0x85
    ||| code == 0xA0
    ||| code == 0x1680
    ||| 0x2000 <= code <= 0x200A
    ||| code == 0x2028
    ||| code == 0x2029
    ||| code == 0x202F
    ||| code == 0x205F
    ||| code == 0x3000
}

/// Tells whether `c` is white space.
pub fn whitespace(c: char) -> (yes: bool)
    ensures
        yes == is_whitespace(c),
{
    let code: u32 = c as u32;
    (0x09 <= code && code <= 0x0D) || code == 0x20 || code == 0x85 || code == 0xA0 || code
        == 0x1680 || (0x2000 <= code && code <= 0x200A) || code == 0x2028 || code == 0x2029 || code
        == 0x202F || code == 0x205F || code == 0x3000
}

/// How many characters of white space `text` starts with.
pub open spec fn leading_whitespace(text: Seq<char>) -> nat
    decreases text.len(),
{
    if text.len() > 0 && is_whitespace(text[0]) {
        1 + leading_whitespace(text.drop_first())
    } else {
        0
    }
}

/// How many characters of white space `text` ends with.
pub open spec fn trailing_whitespace(text: Seq<char>) -> nat
    decreases text.len(),
{
    if text.len() > 0 && is_whitespace(text.last()) {
        1 + trailing_whitespace(text.drop_last())
    } else {
        0
    }
}

/// `text` without the white space at its start and at its end.
pub open spec fn trimmed(text: Seq<char>) -> Seq<char> {
    let rest = text.skip(leading_whitespace(text) as int);
    rest.take(rest.len() - trailing_whitespace(rest))
}

/// The white space at the start of a text ends at the first character that
/// is none.
pub proof fn leading_whitespace_ends(text: Seq<char>, end: int)
    requires
        0 <= end <= text.len(),
        forall|k: int| 0 <= k < end ==> is_whitespace(text[k]),
        end == text.len() || !is_whitespace(text[end]),
    ensures
        leading_whitespace(text) == end,
    decreases end,
{
    if end > 0 {
        leading_whitespace_ends(text.drop_first(), end - 1);
    }
}

/// The white space at the end of a text starts after the last character
/// that is none.
pub proof fn trailing_whitespace_starts(text: Seq<char>, start: int)
    requires
        0 <= start <= text.len(),
        forall|k: int| start <= k < text.len() ==> is_whitespace(text[k]),
        start == 0 || !is_whitespace(text[start - 1]),
    ensures
        trailing_whitespace(text) == text.len() - start,
    decreases text.len() - start,
{
    if start < text.len() {
        trailing_whitespace_starts(text.drop_last(), start);
    }
}

/// Returns `text` without the white space at its start and at its end.
pub fn trim(text: &str) -> (rest: String)
    ensures
        rest@ == trimmed(text@),
{
    let chars = chars_of(text);
    let mut start: usize = 0;
    while start < chars.len() && whitespace(chars[start])
        invariant
            start <= chars.len(),
            forall|k: int| 0 <= k < start ==> is_whitespace(chars[k]),
        decreases chars.len() - start,
    {
        start = start + 1;
    }
    let mut end: usize = chars.len();
    while end > start && whitespace(chars[end - 1])
        invariant
            start <= end <= chars.len(),
            forall|k: int| end <= k < chars.len() ==> is_whitespace(chars[k]),
        decreases end,
    {
        end = end - 1;
    }
    proof {
        leading_whitespace_ends(chars@, start as int);
        let rest = chars@.skip(start as int);
        assert(forall|k: int| end - start <= k < rest.len() ==> rest[k] == chars[k + start]);
        trailing_whitespace_starts(rest, end - start);
    }
    let mut kept: Vec<char> = Vec::new();
    let mut i: usize = start;
    while i < end
        invariant
            start <= i <= end <= chars.len(),
            kept@ == chars@.subrange(start as int, i as int),
        decreases end - i,
    {
        kept.push(chars[i]);
        i = i + 1;
        assert(kept@ =~= chars@.subrange(start as int, i as int));
    }
    assert(kept@ =~= trimmed(text@));
    string_of(&kept)
}

/// An ASCII capital as its small letter; any other character as it is.
pub open spec fn ascii_lower(c: char) -> char {
    if 'A' <= c <= 'Z' {
        ((c as u8) + 32) as u8 as char
    } else {
        c
    }
}

/// Turns an ASCII capital into its small letter.
pub fn to_ascii_lower(c: char) -> (lower: char)
    ensures
        lower == ascii_lower(c),
{
    if 'A' <= c && c <= 'Z' {
        ((c as u8) + 32) as char
    } else {
        c
    }
}

/// Whether two texts are the same but for the case of ASCII letters.
pub open spec fn same_ignoring_ascii_case(a: Seq<char>, b: Seq<char>) -> bool {
    a.len() == b.len() && forall|k: int| 0 <= k < a.len() ==> ascii_lower(a[k]) == ascii_lower(b[k])
}

/// Tells whether two texts are the same but for the case of ASCII letters.
pub fn eq_ignore_ascii_case(a: &str, b: &str) -> (same: bool)
    ensures
        same == same_ignoring_ascii_case(a@, b@),
{
    let left = chars_of(a);
    let right = chars_of(b);
    if left.len() != right.len() {
        return false;
    }
    let mut i: usize = 0;
    while i < left.len()
        invariant
            i <= left.len(),
            left@ == a@,
            right@ == b@,
            left.len() == right.len(),
            forall|k: int| 0 <= k < i ==> ascii_lower(left[k]) == ascii_lower(right[k]),
        decreases left.len() - i,
    {
        if to_ascii_lower(left[i]) != to_ascii_lower(right[i]) {
            return false;
        }
        i = i + 1;
    }
    true
}

/// Tells whether `text` starts with `start`.
pub fn starts_with(text: &str, start: &str) -> (yes: bool)
    ensures
        yes == start@.is_prefix_of(text@),
{
    let whole = chars_of(text);
    let head = chars_of(start);
    if head.len() > whole.len() {
        return false;
    }
    let mut i: usize = 0;
    while i < head.len()
        invariant
            i <= head.len() <= whole.len(),
            whole@ == text@,
            head@ == start@,
            forall|k: int| 0 <= k < i ==> head[k] == whole[k],
        decreases head.len() - i,
    {
        if head[i] != whole[i] {
            assert(whole@.subrange(0, head.len() as int)[i as int] == whole[i as int]);
            return false;
        }
        i = i + 1;
    }
    assert(head@ =~= whole@.subrange(0, head.len() as int));
    true
}

/// Whether `c` is a decimal digit.
pub open spec fn is_digit(c: char) -> bool {
    '0' <= c <= '9'
}

/// The number that a decimal digit stands for.
pub open spec fn digit_value(c: char) -> nat {
    (c as u8 - 48) as nat
}

/// The number that a run of decimal digits stands for.
pub open spec fn decimal_value(digits: Seq<char>) -> nat
    decreases digits.len(),
{
    if digits.len() == 0 {
        0
    } else {
        decimal_value(digits.drop_last()) * 10 + digit_value(digits.last())
    }
}

/// The digits of a number as it is typed: what follows one `+` sign, or
/// the whole input where none leads it.
pub open spec fn unsigned_part(input: Seq<char>) -> Seq<char> {
    if input.len() > 0 && input[0] == '+' {
        input.drop_first()
    } else {
        input
    }
}

/// Whether `input` is a number as it is typed: decimal digits, at least
/// one, after at most one `+` sign.
pub open spec fn is_number(input: Seq<char>) -> bool {
    let digits = unsigned_part(input);
    digits.len() > 0 && forall|k: int| 0 <= k < digits.len() ==> is_digit(digits[k])
}

/// The index that `input` names among `count` items: its number, where it
/// is a number below `count`.
pub open spec fn parsed_index(input: Seq<char>, count: nat) -> Option<nat> {
    if is_number(input) && decimal_value(unsigned_part(input)) < count {
        Some(decimal_value(unsigned_part(input)))
    } else {
        None
    }
}

/// A run of digits that is continued stands for a number that is no
/// smaller.
pub proof fn decimal_value_grows(digits: Seq<char>, length: int)
    requires
        0 <= length <= digits.len(),
    ensures
        decimal_value(digits.take(length)) <= decimal_value(digits),
    decreases digits.len() - length,
{
    if length < digits.len() {
        decimal_value_grows(digits.drop_last(), length);
        assert(digits.drop_last().take(length) =~= digits.take(length));
    } else {
        assert(digits.take(length) =~= digits);
    }
}

/// Reads `input` as an index among `count` items.
pub fn parse_index(input: &str, count: usize) -> (index: Option<usize>)
    ensures
        match index {
            Some(i) => parsed_index(input@, count as nat) == Some(i as nat),
            None => parsed_index(input@, count as nat) is None,
        },
{
    let chars = chars_of(input);
    let start: usize = if chars.len() > 0 && chars[0] == '+' {
        1
    } else {
        0
    };
    let ghost digits = unsigned_part(input@);
    assert(digits =~= chars@.skip(start as int));
    if start == chars.len() {
        return None;
    }
    let mut value: usize = 0;
    let mut i: usize = start;
    assert(digits.take(0) =~= Seq::<char>::empty());
    while i < chars.len()
        invariant
            start <= i <= chars.len(),
            start < chars.len(),
            digits == unsigned_part(input@),
            digits == chars@.skip(start as int),
            forall|k: int| 0 <= k < i - start ==> is_digit(digits[k]),
            value == decimal_value(digits.take(i - start)),
            value < count || i == start,
        decreases chars.len() - i,
    {
        let c = chars[i];
        assert(digits[i - start] == c);
        if !('0' <= c && c <= '9') {
            return None;
        }
        let d: usize = (c as u8 - 48) as usize;
        proof {
            let longer = digits.take(i - start + 1);
            assert(longer.drop_last() =~= digits.take(i - start));
            assert(longer.last() == c);
            assert(decimal_value(longer) == value * 10 + d);
            decimal_value_grows(digits, i - start + 1);
        }
        // once the number is past every index, what follows cannot bring
        // it back
        if value > (usize::MAX - d) / 10 {
            return None;
        }
        value = value * 10 + d;
        if value >= count {
            return None;
        }
        i = i + 1;
    }
    assert(digits.take(i - start) =~= digits);
    Some(value)
}

} // verus!
