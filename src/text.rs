//! Text of numbers and of postal codes.
use vstd::prelude::*;

verus! {

/// The character of a decimal digit.
pub open spec fn digit_char(d: int) -> char {
    seq!['0', '1', '2', '3', '4', '5', '6', '7', '8', '9'][d]
}

/// The decimal digits of a natural number, most significant first.
pub open spec fn natural_text(n: nat) -> Seq<char>
    decreases n,
{
    if n < 10 {
        seq![digit_char(n as int)]
    } else {
        natural_text(n / 10) + seq![digit_char((n % 10) as int)]
    }
}

/// The decimal text of an integer, with a leading `-` where it is negative.
pub open spec fn decimal_text(n: int) -> Seq<char> {
    if n < 0 {
        seq!['-'] + natural_text((-n) as nat)
    } else {
        natural_text(n as nat)
    }
}

/// An ASCII decimal digit.
pub open spec fn is_digit(c: char) -> bool {
    '0' <= c && c <= '9'
}

/// The ASCII digits of a text, in order.
pub open spec fn digits_of(s: Seq<char>) -> Seq<char> {
    s.filter(|c: char| is_digit(c))
}

/// Relies on `ToString` for `i32`, that is its `Display`: the decimal digits,
/// after a `-` for a negative value.
#[verifier::external_body]
pub fn decimal(n: i32) -> (r: String)
    ensures
        r@ == decimal_text(n as int),
{
    n.to_string()
}

/// Relies on `regex::Regex::replace_all` with the class `[^0-9]` and an empty
/// replacement: every character but the ASCII digits is removed, and the
/// digits keep their order.
#[verifier::external_body]
pub fn strip_non_digits(text: &str) -> (r: String)
    ensures
        r@ == digits_of(text@),
{
    regex::Regex::new("[^0-9]").unwrap().replace_all(text, "").into_owned()
}

} // verus!
