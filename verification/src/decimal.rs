//! Decimal rendering of integers, as shown on the element card.

use vstd::prelude::*;
use vstd::string::*;

verus! {

/// The character of a single decimal digit.
pub open spec fn digit_char(d: nat) -> char {
    (48 + d) as char
}

/// The decimal digits of a natural number, most significant first, without
/// leading zeros (zero itself is written `0`).
pub open spec fn digits_of(n: nat) -> Seq<char>
    decreases n,
{
    if n < 10 {
        seq![digit_char(n)]
    } else {
        digits_of(n / 10).push(digit_char(n % 10))
    }
}

/// How `{}` writes an integer: an optional minus sign, then its digits.
pub open spec fn decimal_repr(n: int) -> Seq<char> {
    if n < 0 {
        seq!['-'] + digits_of((-n) as nat)
    } else {
        digits_of(n as nat)
    }
}

/// The one-character string of a digit.
fn digit_str(d: u32) -> (s: &'static str)
    requires
        d < 10,
    ensures
        s@ == seq![digit_char(d as nat)],
{
    proof {
        reveal_strlit("0");
        reveal_strlit("1");
        reveal_strlit("2");
        reveal_strlit("3");
        reveal_strlit("4");
        reveal_strlit("5");
        reveal_strlit("6");
        reveal_strlit("7");
        reveal_strlit("8");
        reveal_strlit("9");
    }
    match d {
        0 => "0",
        1 => "1",
        2 => "2",
        3 => "3",
        4 => "4",
        5 => "5",
        6 => "6",
        7 => "7",
        8 => "8",
        _ => "9",
    }
}

/// The digits of a magnitude.
fn digits_string(m: u32) -> (s: String)
    ensures
        s@ == digits_of(m as nat),
    decreases m,
{
    if m < 10 {
        String::from_str(digit_str(m))
    } else {
        let mut s = digits_string(m / 10);
        s.append(digit_str(m % 10));
        s
    }
}

/// Writes `n` in decimal, as `format!("{}", n)` does.
pub fn decimal_string(n: i32) -> (s: String)
    ensures
        s@ == decimal_repr(n as int),
        decimal_value(s@) == n,
{
    proof {
        lemma_decimal_round_trip(n as int);
    }
    if n < 0 {
        let wide: i64 = n as i64;
        let magnitude: u32 = (-wide) as u32;
        let mut s = String::from_str("-");
        proof {
            reveal_strlit("-");
        }
        let digits = digits_string(magnitude);
        s.append(digits.as_str());
        s
    } else {
        digits_string(n as u32)
    }
}

} // verus!

verus! {

/// The numeric value of a decimal digit character.
pub open spec fn digit_value(c: char) -> int {
    c as int - 48
}

/// Whether a character is one of `0`..`9`.
pub open spec fn is_digit(c: char) -> bool {
    48 <= c as int <= 57
}

/// Reads a run of decimal digits, most significant first.
pub open spec fn digits_value(s: Seq<char>) -> int
    decreases s.len(),
{
    if s.len() == 0 {
        0
    } else {
        digits_value(s.drop_last()) * 10 + digit_value(s.last())
    }
}

/// Reads an integer written with an optional leading minus sign.
pub open spec fn decimal_value(s: Seq<char>) -> int {
    if s.len() > 0 && s[0] == '-' {
        -digits_value(s.drop_first())
    } else {
        digits_value(s)
    }
}

/// Reading back the digits of `n` gives `n`; they are one or more decimal
/// digits.
pub proof fn lemma_digits_round_trip(n: nat)
    ensures
        digits_value(digits_of(n)) == n,
        digits_of(n).len() >= 1,
        forall|i: int| 0 <= i < digits_of(n).len() ==> is_digit(#[trigger] digits_of(n)[i]),
    decreases n,
{
    if n >= 10 {
        lemma_digits_round_trip(n / 10);
        let s = digits_of(n);
        assert(s.drop_last() =~= digits_of(n / 10));
        assert(s.last() == digit_char(n % 10));
        assert(digit_char(n % 10) as int == 48 + n % 10);
        assert((n / 10) * 10 + n % 10 == n) by (nonlinear_arith);
        assert(digits_value(s) == digits_value(s.drop_last()) * 10 + digit_value(s.last()));
        assert forall|i: int| 0 <= i < s.len() implies is_digit(#[trigger] s[i]) by {
            if i < s.len() - 1 {
                assert(s[i] == digits_of(n / 10)[i]);
            }
        }
    } else {
        let s = digits_of(n);
        assert(s =~= seq![digit_char(n)]);
        assert(s.drop_last() =~= Seq::<char>::empty());
        assert(digit_char(n) as int == 48 + n);
        assert(digits_value(s) == digits_value(s.drop_last()) * 10 + digit_value(s.last()));
    }
}

/// Reading back what `decimal_repr` writes gives the number: the decimal
/// text of an integer names that integer, so distinct integers are written
/// differently.
pub proof fn lemma_decimal_round_trip(n: int)
    ensures
        decimal_value(decimal_repr(n)) == n,
        decimal_repr(n).len() >= 1,
        n < 0 <==> decimal_repr(n)[0] == '-',
        n >= 0 ==> is_digit(decimal_repr(n)[0]),
{
    if n < 0 {
        lemma_digits_round_trip((-n) as nat);
        let s = decimal_repr(n);
        assert(s.drop_first() =~= digits_of((-n) as nat));
    } else {
        lemma_digits_round_trip(n as nat);
        assert(is_digit(digits_of(n as nat)[0]));
    }
}

/// Two integers have the same decimal text exactly when they are equal.
pub proof fn lemma_decimal_repr_injective(a: int, b: int)
    ensures
        (decimal_repr(a) == decimal_repr(b)) <==> a == b,
{
    lemma_decimal_round_trip(a);
    lemma_decimal_round_trip(b);
}

} // verus!
