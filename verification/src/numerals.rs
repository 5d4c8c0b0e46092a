//! Numbers written out as text: decimal, with or without a sign, and
//! hexadecimal.

use vstd::prelude::*;
use vstd::string::StringExecFns;
use crate::scan::{all_digits, digits_value, is_digit, number_of, unsigned_part};

verus! {

/// The character that stands for a digit below sixteen: `0` to `9`, then
/// `a` to `f`.
pub open spec fn digit_char(d: int) -> char {
    if d == 0 {
        '0'
    } else if d == 1 {
        '1'
    } else if d == 2 {
        '2'
    } else if d == 3 {
        '3'
    } else if d == 4 {
        '4'
    } else if d == 5 {
        '5'
    } else if d == 6 {
        '6'
    } else if d == 7 {
        '7'
    } else if d == 8 {
        '8'
    } else if d == 9 {
        '9'
    } else if d == 10 {
        'a'
    } else if d == 11 {
        'b'
    } else if d == 12 {
        'c'
    } else if d == 13 {
        'd'
    } else if d == 14 {
        'e'
    } else {
        'f'
    }
}

/// A number in decimal, most significant digit first, without leading
/// zeros; zero is a single `0`.
pub open spec fn decimal(n: nat) -> Seq<char>
    decreases n,
{
    if n < 10 {
        seq![digit_char(n as int)]
    } else {
        decimal(n / 10).push(digit_char((n % 10) as int))
    }
}

/// A number in lower-case hexadecimal, most significant digit first, without
/// leading zeros; zero is a single `0`.
pub open spec fn hex(n: nat) -> Seq<char>
    decreases n,
{
    if n < 16 {
        seq![digit_char(n as int)]
    } else {
        hex(n / 16).push(digit_char((n % 16) as int))
    }
}

/// An integer in decimal, a minus sign in front of a negative one.
pub open spec fn signed_decimal(n: int) -> Seq<char> {
    if n < 0 {
        seq!['-'] + decimal((-n) as nat)
    } else {
        decimal(n as nat)
    }
}

/// A number in lower-case hexadecimal, at least two digits wide.
pub open spec fn hex_pair(n: nat) -> Seq<char> {
    if n < 16 {
        seq!['0'] + hex(n)
    } else {
        hex(n)
    }
}

/// The text of one digit.
fn digit_text(d: u64) -> (text: &'static str)
    requires
        d < 16,
    ensures
        text@ == seq![digit_char(d as int)],
{
    proof {
        reveal_strlit("0");
        reveal_strlit("1");
        reveal_strlit("2");
        reveal_strlit("3");
        reveal_strlit("4");
        reveal_strlit("5");
        reveal_strlit("6");
        reveal_strlit("7");
        reveal_strlit("8");
        reveal_strlit("9");
        reveal_strlit("a");
        reveal_strlit("b");
        reveal_strlit("c");
        reveal_strlit("d");
        reveal_strlit("e");
        reveal_strlit("f");
    }
    let text: &'static str = match d {
        0 => "0",
        1 => "1",
        2 => "2",
        3 => "3",
        4 => "4",
        5 => "5",
        6 => "6",
        7 => "7",
        8 => "8",
        9 => "9",
        10 => "a",
        11 => "b",
        12 => "c",
        13 => "d",
        14 => "e",
        _ => "f",
    };
    assert(text@ =~= seq![digit_char(d as int)]);
    text
}

/// Writes a number in decimal.
pub fn to_decimal(n: u64) -> (text: String)
    ensures
        text@ == decimal(n as nat),
    decreases n,
{
    if n < 10 {
        String::from_str(digit_text(n))
    } else {
        let mut text: String = to_decimal(n / 10);
        text.append(digit_text(n % 10));
        text
    }
}

/// Writes a number in lower-case hexadecimal.
pub fn to_hex(n: u64) -> (text: String)
    ensures
        text@ == hex(n as nat),
    decreases n,
{
    if n < 16 {
        String::from_str(digit_text(n))
    } else {
        let mut text: String = to_hex(n / 16);
        text.append(digit_text(n % 16));
        text
    }
}

/// Writes an integer in decimal, with a minus sign if it is negative.
pub fn to_signed_decimal(n: i64) -> (text: String)
    ensures
        text@ == signed_decimal(n as int),
{
    if n < 0 {
        let magnitude: u64 = (-(n + 1)) as u64 + 1;
        let mut text: String = String::from_str("-");
        proof {
            reveal_strlit("-");
            assert("-"@ =~= seq!['-']);
        }
        let digits: String = to_decimal(magnitude);
        text.append(digits.as_str());
        text
    } else {
        to_decimal(n as u64)
    }
}

/// Writes a number in lower-case hexadecimal, at least two digits wide.
pub fn to_hex_pair(n: u32) -> (text: String)
    ensures
        text@ == hex_pair(n as nat),
{
    let digits: String = to_hex(n as u64);
    if n < 16 {
        let mut text: String = String::from_str("0");
        proof {
            reveal_strlit("0");
            assert("0"@ =~= seq!['0']);
        }
        text.append(digits.as_str());
        text
    } else {
        digits
    }
}

/// A decimal numeral is made of decimal digits, at least one, and spells
/// the number it was written for.
pub proof fn lemma_decimal_spells(n: nat)
    ensures
        decimal(n).len() >= 1,
        all_digits(decimal(n)),
        digits_value(decimal(n)) == n,
    decreases n,
{
    if n < 10 {
        let one = decimal(n);
        assert(one.drop_last() =~= Seq::<char>::empty());
        assert(digits_value(one.drop_last()) == 0);
    } else {
        lemma_decimal_spells(n / 10);
        let head = decimal(n / 10);
        let whole = decimal(n);
        assert(whole.drop_last() =~= head);
        assert forall|i: int| 0 <= i < whole.len() implies is_digit(#[trigger] whole[i]) by {
            if i < head.len() {
                assert(whole[i] == head[i]);
            }
        }
    }
}

/// A number that fits in 32 bits is read back from its decimal numeral.
pub proof fn lemma_decimal_reads_back(n: nat)
    requires
        n <= u32::MAX,
    ensures
        number_of(decimal(n)) == Some(n as u32),
{
    lemma_decimal_spells(n);
    let text = decimal(n);
    assert(is_digit(text[0]));
    assert(unsigned_part(text) == text);
}

} // verus!
