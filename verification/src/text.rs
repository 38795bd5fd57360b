//! Rendering integers as decimal and binary text.
//!
//! The processing-graph descriptions and the option listings embed numbers in
//! strings; these functions produce exactly the digit sequences their
//! contracts name.

use vstd::prelude::*;

verus! {

/// The character for a single digit value below the base.
pub open spec fn spec_digit_char(d: nat) -> char {
    if d == 0 {
        '0'
    } else if d == 1 {
        '1'
    } else if d == 2 {
        '2'
    } else if d == 3 {
        '3'
    } else if d == 4 {
        '4'
    } else if d == 5 {
        '5'
    } else if d == 6 {
        '6'
    } else if d == 7 {
        '7'
    } else if d == 8 {
        '8'
    } else {
        '9'
    }
}

/// The decimal digit sequence of `n`, most significant digit first.
pub open spec fn spec_decimal(n: nat) -> Seq<char>
    decreases n,
{
    if n < 10 {
        seq![spec_digit_char(n)]
    } else {
        spec_decimal(n / 10) + seq![spec_digit_char(n % 10)]
    }
}

/// The binary digit sequence of `n`, most significant digit first.
pub open spec fn spec_binary(n: nat) -> Seq<char>
    decreases n,
{
    if n < 2 {
        seq![spec_digit_char(n)]
    } else {
        spec_binary(n / 2) + seq![spec_digit_char(n % 2)]
    }
}

/// The decimal rendering of a signed value: a minus sign before the digit
/// sequence of its magnitude when it is negative.
pub open spec fn spec_decimal_i64(n: int) -> Seq<char> {
    if n < 0 {
        seq!['-'] + spec_decimal((-n) as nat)
    } else {
        spec_decimal(n as nat)
    }
}

fn digit_str(d: u64) -> (r: &'static str)
    requires
        d < 10,
    ensures
        r@ == seq![spec_digit_char(d as nat)],
{
    proof {
        reveal_strlit("0");
        reveal_strlit("1");
        reveal_strlit("2");
        reveal_strlit("3");
        reveal_strlit("4");
        reveal_strlit("5");
        reveal_strlit("6");
        reveal_strlit("7");
        reveal_strlit("8");
        reveal_strlit("9");
    }
    let r: &'static str = if d == 0 {
        "0"
    } else if d == 1 {
        "1"
    } else if d == 2 {
        "2"
    } else if d == 3 {
        "3"
    } else if d == 4 {
        "4"
    } else if d == 5 {
        "5"
    } else if d == 6 {
        "6"
    } else if d == 7 {
        "7"
    } else if d == 8 {
        "8"
    } else {
        "9"
    };
    proof {
        assert(r@ =~= seq![spec_digit_char(d as nat)]);
    }
    r
}

/// Renders `n` in decimal.
pub fn decimal_u64(n: u64) -> (r: String)
    ensures
        r@ == spec_decimal(n as nat),
    decreases n,
{
    if n < 10 {
        String::from_str(digit_str(n))
    } else {
        let prefix = decimal_u64(n / 10);
        prefix.concat(digit_str(n % 10))
    }
}

/// Renders `n` in binary.
pub fn binary_u64(n: u64) -> (r: String)
    ensures
        r@ == spec_binary(n as nat),
    decreases n,
{
    if n < 2 {
        String::from_str(digit_str(n))
    } else {
        let prefix = binary_u64(n / 2);
        prefix.concat(digit_str(n % 2))
    }
}

/// Renders a signed value in decimal, with a leading minus sign when negative.
pub fn decimal_i64(n: i64) -> (r: String)
    ensures
        r@ == spec_decimal_i64(n as int),
{
    if n < 0 {
        // Avoid overflow at the most negative value: negate in two steps.
        let magnitude: u64 = ((-(n + 1)) as u64) + 1;
        proof {
            assert(magnitude == (-(n as int)) as nat);
            reveal_strlit("-");
            assert("-"@ =~= seq!['-']);
        }
        let mut r = String::from_str("-");
        let digits = decimal_u64(magnitude);
        r.append(digits.as_str());
        r
    } else {
        decimal_u64(n as u64)
    }
}

} // verus!
