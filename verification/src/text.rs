//! Verified decimal formatting and digit parsing, used by the error
//! descriptor's rendering and by the temporal value codec.

use vstd::prelude::*;
use vstd::string::StringExecFns;

verus! {

/// The decimal digit character for a value below ten.
pub open spec fn spec_digit_char(d: nat) -> char {
    if d == 0 {
        '0'
    } else if d == 1 {
        '1'
    } else if d == 2 {
        '2'
    } else if d == 3 {
        '3'
    } else if d == 4 {
        '4'
    } else if d == 5 {
        '5'
    } else if d == 6 {
        '6'
    } else if d == 7 {
        '7'
    } else if d == 8 {
        '8'
    } else {
        '9'
    }
}

/// The numeric value of a decimal digit character, if it is one.
pub open spec fn spec_char_digit(c: char) -> Option<u32> {
    if c == '0' {
        Some(0u32)
    } else if c == '1' {
        Some(1u32)
    } else if c == '2' {
        Some(2u32)
    } else if c == '3' {
        Some(3u32)
    } else if c == '4' {
        Some(4u32)
    } else if c == '5' {
        Some(5u32)
    } else if c == '6' {
        Some(6u32)
    } else if c == '7' {
        Some(7u32)
    } else if c == '8' {
        Some(8u32)
    } else if c == '9' {
        Some(9u32)
    } else {
        None
    }
}

/// Parsing a digit character inverts formatting one.
pub broadcast proof fn lemma_char_digit_of_digit_char(d: nat)
    requires
        d < 10,
    ensures
        #[trigger] spec_char_digit(spec_digit_char(d)) == Some(d as u32),
{
}

/// The one-character string for a decimal digit.
pub fn digit_str(d: u32) -> (s: &'static str)
    requires
        d < 10,
    ensures
        s@ =~= seq![spec_digit_char(d as nat)],
{
    proof {
        reveal_strlit("0");
        reveal_strlit("1");
        reveal_strlit("2");
        reveal_strlit("3");
        reveal_strlit("4");
        reveal_strlit("5");
        reveal_strlit("6");
        reveal_strlit("7");
        reveal_strlit("8");
        reveal_strlit("9");
    }
    match d {
        0 => "0",
        1 => "1",
        2 => "2",
        3 => "3",
        4 => "4",
        5 => "5",
        6 => "6",
        7 => "7",
        8 => "8",
        _ => "9",
    }
}

/// The numeric value of a digit character, or `None` for any other character.
pub fn char_digit(c: char) -> (r: Option<u32>)
    ensures
        r == spec_char_digit(c),
{
    match c {
        '0' => Some(0),
        '1' => Some(1),
        '2' => Some(2),
        '3' => Some(3),
        '4' => Some(4),
        '5' => Some(5),
        '6' => Some(6),
        '7' => Some(7),
        '8' => Some(8),
        '9' => Some(9),
        _ => None,
    }
}

/// The shortest decimal rendering of a natural number.
pub open spec fn spec_decimal(n: nat) -> Seq<char>
    decreases n,
{
    if n < 10 {
        seq![spec_digit_char(n)]
    } else {
        spec_decimal(n / 10).push(spec_digit_char(n % 10))
    }
}

/// Renders an unsigned value in decimal.
pub fn u32_to_string(n: u32) -> (s: String)
    ensures
        s@ == spec_decimal(n as nat),
    decreases n,
{
    if n < 10 {
        let s = String::from_str(digit_str(n));
        proof {
            assert(s@ =~= spec_decimal(n as nat));
        }
        s
    } else {
        assert(n / 10 < n) by {
            assert(n / 10 < n) by (nonlinear_arith)
                requires n >= 10;
        };
        let mut s = u32_to_string(n / 10);
        s.append(digit_str(n % 10));
        proof {
            assert(s@ =~= spec_decimal(n as nat));
        }
        s
    }
}

/// The decimal rendering of a signed value: a minus sign where negative.
pub open spec fn spec_decimal_i32(n: int) -> Seq<char> {
    if n < 0 {
        seq!['-'] + spec_decimal((-n) as nat)
    } else {
        spec_decimal(n as nat)
    }
}

/// Renders a signed value in decimal.
pub fn i32_to_string(n: i32) -> (s: String)
    ensures
        s@ == spec_decimal_i32(n as int),
{
    if n < 0 {
        let magnitude: u32 = (-(n as i64)) as u32;
        proof {
            reveal_strlit("-");
        }
        let mut s = String::from_str("-");
        let rest = u32_to_string(magnitude);
        s.append(rest.as_str());
        proof {
            assert(s@ =~= spec_decimal_i32(n as int));
        }
        s
    } else {
        u32_to_string(n as u32)
    }
}

/// A two-digit, zero-padded decimal rendering.
pub open spec fn spec_two_digits(n: nat) -> Seq<char> {
    seq![spec_digit_char(n / 10 % 10), spec_digit_char(n % 10)]
}

/// Appends a value below one hundred as two zero-padded digits.
pub fn append_two_digits(s: &mut String, n: u32)
    requires
        n < 100,
    ensures
        final(s)@ == old(s)@ + spec_two_digits(n as nat),
{
    s.append(digit_str(n / 10));
    s.append(digit_str(n % 10));
    proof {
        assert(n / 10 % 10 == n / 10) by (nonlinear_arith)
            requires n < 100;
        assert(s@ =~= old(s)@ + spec_two_digits(n as nat));
    }
}

/// A four-digit, zero-padded decimal rendering.
pub open spec fn spec_four_digits(n: nat) -> Seq<char> {
    seq![
        spec_digit_char(n / 1000 % 10),
        spec_digit_char(n / 100 % 10),
        spec_digit_char(n / 10 % 10),
        spec_digit_char(n % 10),
    ]
}

/// Appends a value below ten thousand as four zero-padded digits.
pub fn append_four_digits(s: &mut String, n: u32)
    requires
        n < 10000,
    ensures
        final(s)@ == old(s)@ + spec_four_digits(n as nat),
{
    s.append(digit_str(n / 1000));
    s.append(digit_str(n / 100 % 10));
    s.append(digit_str(n / 10 % 10));
    s.append(digit_str(n % 10));
    proof {
        assert(n / 1000 % 10 == n / 1000) by (nonlinear_arith)
            requires n < 10000;
        assert(s@ =~= old(s)@ + spec_four_digits(n as nat));
    }
}

} // verus!
