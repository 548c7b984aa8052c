//! Decimal digits: reading them from characters and writing them back.

use vstd::prelude::*;

verus! {

/// The value of `c` as a decimal digit; `None` unless `c` is one of `'0'` to
/// `'9'`.
pub open spec fn spec_digit_value(c: char) -> Option<int> {
    if '0' <= c && c <= '9' {
        Some(c as int - '0' as int)
    } else {
        None
    }
}

/// The value of `c` as a decimal digit.
pub fn digit_value(c: char) -> (r: Option<i32>)
    ensures
        match r {
            Some(d) => spec_digit_value(c) == Some(d as int) && 0 <= d <= 9,
            None => spec_digit_value(c) is None,
        },
{
    if '0' <= c && c <= '9' {
        let d: u32 = c as u32 - '0' as u32;
        Some(d as i32)
    } else {
        None
    }
}

/// The number that the two characters `tens` and `ones` spell in base ten;
/// `None` unless both are decimal digits.
pub open spec fn spec_two_digit_value(tens: char, ones: char) -> Option<int> {
    match (spec_digit_value(tens), spec_digit_value(ones)) {
        (Some(t), Some(o)) => Some(10 * t + o),
        _ => None,
    }
}

/// Reads a number of exactly two decimal digits.
pub fn two_digit_value(tens: char, ones: char) -> (r: Option<i32>)
    ensures
        match r {
            Some(n) => spec_two_digit_value(tens, ones) == Some(n as int) && 0 <= n <= 99,
            None => spec_two_digit_value(tens, ones) is None,
        },
{
    match (digit_value(tens), digit_value(ones)) {
        (Some(t), Some(o)) => Some(10 * t + o),
        _ => None,
    }
}

/// The character that writes the decimal digit `d`.
pub open spec fn spec_digit_char(d: int) -> char
    recommends
        0 <= d <= 9,
{
    ('0' as int + d) as char
}

/// The decimal digit `d` as a string of one character.
pub fn digit_str(d: i32) -> (s: &'static str)
    requires
        0 <= d <= 9,
    ensures
        s@ == seq![spec_digit_char(d as int)],
{
    proof {
        reveal_strlit("0");
        reveal_strlit("1");
        reveal_strlit("2");
        reveal_strlit("3");
        reveal_strlit("4");
        reveal_strlit("5");
        reveal_strlit("6");
        reveal_strlit("7");
        reveal_strlit("8");
        reveal_strlit("9");
    }
    let s: &'static str = match d {
        0 => "0",
        1 => "1",
        2 => "2",
        3 => "3",
        4 => "4",
        5 => "5",
        6 => "6",
        7 => "7",
        8 => "8",
        _ => "9",
    };
    assert(s@ =~= seq![spec_digit_char(d as int)]);
    s
}

/// The number `n` written with exactly two decimal digits.
pub open spec fn spec_two_digits(n: int) -> Seq<char>
    recommends
        0 <= n <= 99,
{
    seq![spec_digit_char(n / 10), spec_digit_char(n % 10)]
}

/// Writes `n` with exactly two decimal digits, the first a zero where `n` is
/// below ten.
pub fn two_digits(n: i32) -> (s: String)
    requires
        0 <= n <= 99,
    ensures
        s@ == spec_two_digits(n as int),
{
    let s = String::from_str(digit_str(n / 10)).concat(digit_str(n % 10));
    assert(s@ =~= spec_two_digits(n as int));
    s
}

/// Two digits written by `spec_two_digits` are read back by
/// `spec_two_digit_value` as the number they were written from.
pub proof fn lemma_two_digits_read_back(n: int)
    requires
        0 <= n <= 99,
    ensures
        spec_two_digits(n).len() == 2,
        spec_two_digit_value(spec_two_digits(n)[0], spec_two_digits(n)[1]) == Some(n),
{
}

} // verus!
