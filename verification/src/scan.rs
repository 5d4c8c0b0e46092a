//! Scanning a line of text: its characters, the white space around it, and
//! the unsigned decimal number it may spell.

use vstd::prelude::*;

verus! {

/// White space as Unicode defines it: the tab and the line controls, the
/// space, the next-line control, the no-break space, and the spaces and
/// separators of the general punctuation block and beyond.
pub open spec fn is_white_space(c: char) -> bool {
    let code = c as u32;
    ||| 0x09 <= code <= 0x0D
    ||| code == 0x20
    ||| code == 0x85
    ||| code == 0xA0
    ||| code == 0x1680
    ||| 0x2000 <= code <= 0x200A
    ||| code == 0x2028
    ||| code == 0x2029
    ||| code == 0x202F
    ||| code == 0x205F
    ||| code == 0x3000
}

/// The text without the white space it begins with.
pub open spec fn trim_start(text: Seq<char>) -> Seq<char>
    decreases text.len(),
{
    if text.len() > 0 && is_white_space(text[0]) {
        trim_start(text.drop_first())
    } else {
        text
    }
}

/// The text without the white space it ends with.
pub open spec fn trim_end(text: Seq<char>) -> Seq<char>
    decreases text.len(),
{
    if text.len() > 0 && is_white_space(text.last()) {
        trim_end(text.drop_last())
    } else {
        text
    }
}

/// The text without the white space around it.
pub open spec fn trimmed(text: Seq<char>) -> Seq<char> {
    trim_end(trim_start(text))
}

/// One of the ten decimal digits.
pub open spec fn is_digit(c: char) -> bool {
    0x30 <= c as u32 <= 0x39
}

/// Every character is a decimal digit.
pub open spec fn all_digits(text: Seq<char>) -> bool {
    forall|i: int| 0 <= i < text.len() ==> is_digit(#[trigger] text[i])
}

/// What a decimal digit counts.
pub open spec fn digit_value(c: char) -> int {
    c as u32 - 0x30
}

/// The number that a row of decimal digits spells, the last digit counting
/// ones. An empty row spells zero.
pub open spec fn digits_value(digits: Seq<char>) -> int
    decreases digits.len(),
{
    if digits.len() == 0 {
        0
    } else {
        digits_value(digits.drop_last()) * 10 + digit_value(digits.last())
    }
}

/// The text without a plus sign in front.
pub open spec fn unsigned_part(text: Seq<char>) -> Seq<char> {
    if text.len() > 0 && text[0] == '+' {
        text.drop_first()
    } else {
        text
    }
}

/// The number that the text spells: an optional plus sign, then at least one
/// decimal digit and nothing else, the whole no more than `u32::MAX`. Any
/// other text spells no number.
pub open spec fn number_of(text: Seq<char>) -> Option<u32> {
    let digits = unsigned_part(text);
    if digits.len() > 0 && all_digits(digits) && digits_value(digits) <= u32::MAX {
        Some(digits_value(digits) as u32)
    } else {
        None
    }
}

/// What a list of lines holds: the characters of each, in order.
pub open spec fn texts(lines: Seq<String>) -> Seq<Seq<char>> {
    lines.map_values(|line: String| line@)
}

/// The characters of a text, in order.
pub fn chars_of(text: &str) -> (chars: Vec<char>)
    ensures
        chars@ == text@,
{
    let mut chars: Vec<char> = Vec::new();
    let count: usize = text.unicode_len();
    let mut i: usize = 0;
    while i < count
        invariant
            count == text@.len(),
            i <= count,
            chars@ == text@.take(i as int),
        decreases count - i,
    {
        chars.push(text.get_char(i));
        i += 1;
    }
    chars
}

/// Tells white space from the rest.
pub fn white_space(c: char) -> (yes: bool)
    ensures
        yes == is_white_space(c),
{
    let code: u32 = c as u32;
    (0x09 <= code && code <= 0x0D) || code == 0x20 || code == 0x85 || code == 0xA0 || code
        == 0x1680 || (0x2000 <= code && code <= 0x200A) || code == 0x2028 || code == 0x2029 || code
        == 0x202F || code == 0x205F || code == 0x3000
}

/// Tells a decimal digit from the rest.
pub fn digit(c: char) -> (yes: bool)
    ensures
        yes == is_digit(c),
{
    let code: u32 = c as u32;
    0x30 <= code && code <= 0x39
}

/// Drops the white space around a row of characters.
pub fn trim(chars: &Vec<char>) -> (kept: Vec<char>)
    ensures
        kept@ == trimmed(chars@),
{
    let len: usize = chars.len();
    let mut start: usize = 0;
    assert(chars@.subrange(0, len as int) == chars@);
    while start < len && white_space(chars[start])
        invariant
            len == chars.len(),
            start <= len,
            trim_start(chars@) == trim_start(chars@.subrange(start as int, len as int)),
        decreases len - start,
    {
        proof {
            let rest = chars@.subrange(start as int, len as int);
            assert(rest.drop_first() == chars@.subrange(start + 1, len as int));
        }
        start += 1;
    }
    let ghost led = chars@.subrange(start as int, len as int);
    assert(trim_start(chars@) == led);
    let mut end: usize = len;
    while end > start && white_space(chars[end - 1])
        invariant
            len == chars.len(),
            start <= end <= len,
            trim_end(led) == trim_end(chars@.subrange(start as int, end as int)),
        decreases end - start,
    {
        proof {
            let rest = chars@.subrange(start as int, end as int);
            assert(rest.drop_last() == chars@.subrange(start as int, end - 1));
        }
        end -= 1;
    }
    let mut kept: Vec<char> = Vec::new();
    let mut i: usize = start;
    while i < end
        invariant
            start <= i <= end <= chars.len(),
            kept@ == chars@.subrange(start as int, i as int),
        decreases end - i,
    {
        kept.push(chars[i]);
        i += 1;
    }
    kept
}

/// A row of digits counts at least what any of its beginnings counts.
pub proof fn lemma_digits_value_grows(digits: Seq<char>, k: int)
    requires
        all_digits(digits),
        0 <= k <= digits.len(),
    ensures
        0 <= digits_value(digits.take(k)) <= digits_value(digits),
    decreases digits.len(),
{
    if k == digits.len() {
        assert(digits.take(k) == digits);
        if digits.len() > 0 {
            lemma_digits_value_grows(digits.drop_last(), k - 1);
            assert(is_digit(digits.last()));
        }
    } else {
        lemma_digits_value_grows(digits.drop_last(), k);
        assert(digits.drop_last().take(k) == digits.take(k));
        assert(is_digit(digits.last()));
    }
}

/// Reads the unsigned decimal number that a row of characters spells.
pub fn parse_u32(chars: &Vec<char>) -> (parsed: Option<u32>)
    ensures
        parsed == number_of(chars@),
{
    let len: usize = chars.len();
    let first: usize = if len > 0 && chars[0] == '+' {
        1
    } else {
        0
    };
    let ghost digits = unsigned_part(chars@);
    assert(digits == chars@.subrange(first as int, len as int));
    if first == len {
        return None;
    }
    let mut value: u64 = 0;
    let mut i: usize = first;
    while i < len
        invariant
            len == chars.len(),
            first <= i <= len,
            digits == unsigned_part(chars@),
            digits == chars@.subrange(first as int, len as int),
            all_digits(digits.take(i - first)),
            value == digits_value(digits.take(i - first)),
            value <= u32::MAX,
        decreases len - i,
    {
        let c: char = chars[i];
        let ghost seen = digits.take(i - first);
        let ghost more = digits.take(i - first + 1);
        assert(more.drop_last() == seen);
        assert(more.last() == c);
        if !digit(c) {
            assert(!is_digit(digits[i - first]));
            return None;
        }
        let next: u64 = value * 10 + (c as u32 - 0x30) as u64;
        assert(next == digits_value(more));
        if next > u32::MAX as u64 {
            proof {
                if all_digits(digits) {
                    lemma_digits_value_grows(digits, i - first + 1);
                }
            }
            return None;
        }
        value = next;
        i += 1;
    }
    assert(digits.take(len - first) == digits);
    Some(value as u32)
}

} // verus!
