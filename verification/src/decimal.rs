//! Decimal numerals for status codes.
//!
//! Diagnostic messages embed the offending status code as a decimal
//! numeral.  The renderers here are verified against a sequence-of-characters
//! model of the numeral, so a message's contract can pin the exact text.

use vstd::prelude::*;

verus! {

/// The character for a single decimal digit.
pub open spec fn spec_digit_char(d: nat) -> char {
    if d == 0 {
        '0'
    } else if d == 1 {
        '1'
    } else if d == 2 {
        '2'
    } else if d == 3 {
        '3'
    } else if d == 4 {
        '4'
    } else if d == 5 {
        '5'
    } else if d == 6 {
        '6'
    } else if d == 7 {
        '7'
    } else if d == 8 {
        '8'
    } else {
        '9'
    }
}

/// The decimal numeral of a nonnegative integer, most significant digit
/// first, with no leading zeros (zero itself is "0").
pub open spec fn spec_nat_decimal(n: nat) -> Seq<char>
    decreases n,
{
    if n < 10 {
        seq![spec_digit_char(n)]
    } else {
        spec_nat_decimal(n / 10) + seq![spec_digit_char(n % 10)]
    }
}

/// The decimal numeral of a signed integer: a minus sign for a negative
/// value, then the numeral of its magnitude.
pub open spec fn spec_int_decimal(i: int) -> Seq<char> {
    if i >= 0 {
        spec_nat_decimal(i as nat)
    } else {
        seq!['-'] + spec_nat_decimal((-i) as nat)
    }
}

/// A decimal numeral is never empty.
pub proof fn lemma_int_decimal_nonempty(i: int)
    ensures
        spec_int_decimal(i).len() >= 1,
{
    if i >= 0 {
        lemma_nat_decimal_nonempty(i as nat);
    }
}

proof fn lemma_nat_decimal_nonempty(n: nat)
    ensures
        spec_nat_decimal(n).len() >= 1,
    decreases n,
{
    if n >= 10 {
        lemma_nat_decimal_nonempty(n / 10);
    }
}

/// The one-character string for a single decimal digit.
fn digit_str(d: u32) -> (s: &'static str)
    requires
        d < 10,
    ensures
        s@ == seq![spec_digit_char(d as nat)],
{
    let s: &'static str = match d {
        0 => "0",
        1 => "1",
        2 => "2",
        3 => "3",
        4 => "4",
        5 => "5",
        6 => "6",
        7 => "7",
        8 => "8",
        _ => "9",
    };
    proof {
        reveal_strlit("0");
        reveal_strlit("1");
        reveal_strlit("2");
        reveal_strlit("3");
        reveal_strlit("4");
        reveal_strlit("5");
        reveal_strlit("6");
        reveal_strlit("7");
        reveal_strlit("8");
        reveal_strlit("9");
        assert(s@ =~= seq![spec_digit_char(d as nat)]);
    }
    s
}

/// Render a nonnegative integer as its decimal numeral.
pub fn u32_decimal(n: u32) -> (s: String)
    ensures
        s@ == spec_nat_decimal(n as nat),
    decreases n,
{
    if n < 10 {
        digit_str(n).to_owned()
    } else {
        let mut s = u32_decimal(n / 10);
        s.append(digit_str(n % 10));
        s
    }
}

/// Render a signed integer as its decimal numeral.
pub fn i32_decimal(i: i32) -> (s: String)
    ensures
        s@ == spec_int_decimal(i as int),
{
    if i >= 0 {
        u32_decimal(i as u32)
    } else {
        let magnitude: u32 = (-(i as i64)) as u32;
        let mut s = "-".to_owned();
        s.append(u32_decimal(magnitude).as_str());
        proof {
            reveal_strlit("-");
            assert(s@ =~= spec_int_decimal(i as int));
        }
        s
    }
}

} // verus!
