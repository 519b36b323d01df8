//! Decimal text of integers.
use vstd::prelude::*;

verus! {

/// The decimal digit of a value below 10.
pub open spec fn digit_char(d: nat) -> char {
    (48 + d) as char
}

/// The decimal text of a natural number, without leading zeros.
pub open spec fn decimal_text(n: nat) -> Seq<char>
    decreases n,
{
    if n < 10 {
        seq![digit_char(n)]
    } else {
        decimal_text(n / 10).push(digit_char(n % 10))
    }
}

/// The decimal text of an integer, with a `-` before a negative one.
pub open spec fn signed_decimal_text(i: int) -> Seq<char> {
    if i < 0 {
        seq!['-'] + decimal_text((-i) as nat)
    } else {
        decimal_text(i as nat)
    }
}

/// An ASCII decimal digit.
pub open spec fn is_digit(c: char) -> bool {
    '0' <= c && c <= '9'
}

/// One or more decimal digits.
pub open spec fn is_digits(s: Seq<char>) -> bool {
    s.len() > 0 && forall|i: int| 0 <= i < s.len() ==> is_digit(#[trigger] s[i])
}

/// The value of a string of decimal digits; leading zeros are allowed.
pub open spec fn digits_value(s: Seq<char>) -> nat
    decreases s.len(),
{
    if s.len() == 0 {
        0
    } else {
        digits_value(s.drop_last()) * 10 + (s.last() as nat - 48) as nat
    }
}

/// The integer that the text writes as decimal digits with an optional `+`
/// or `-` sign, if it is one.
pub open spec fn signed_literal(s: Seq<char>) -> Option<int> {
    if s.len() > 0 && s[0] == '-' && is_digits(s.drop_first()) {
        Some(-(digits_value(s.drop_first()) as int))
    } else if s.len() > 0 && s[0] == '+' && is_digits(s.drop_first()) {
        Some(digits_value(s.drop_first()) as int)
    } else if is_digits(s) {
        Some(digits_value(s) as int)
    } else {
        None
    }
}

/// The natural number that the text writes as decimal digits with an
/// optional `+` sign, if it is one.
pub open spec fn unsigned_literal(s: Seq<char>) -> Option<int> {
    if s.len() > 0 && s[0] == '+' && is_digits(s.drop_first()) {
        Some(digits_value(s.drop_first()) as int)
    } else if is_digits(s) {
        Some(digits_value(s) as int)
    } else {
        None
    }
}

/// Relies on the `Display` of `i128`: decimal digits, with `-` when negative.
#[verifier::external_body]
pub(crate) fn i128_text(v: i128) -> (r: String)
    ensures
        r@ == signed_decimal_text(v as int),
{
    v.to_string()
}

/// Relies on the `Display` of `u128`: decimal digits.
#[verifier::external_body]
pub(crate) fn u128_text(v: u128) -> (r: String)
    ensures
        r@ == decimal_text(v as nat),
{
    v.to_string()
}

/// Relies on `i128::from_str`, which accepts decimal digits with an optional
/// sign and fails when the value does not fit.
#[verifier::external_body]
pub(crate) fn parse_i128(s: &str) -> (r: Option<i128>)
    ensures
        r is Some <==> (signed_literal(s@) matches Some(v) && i128::MIN <= v <= i128::MAX),
        r matches Some(v) ==> signed_literal(s@) == Some(v as int),
{
    s.parse::<i128>().ok()
}

/// Relies on `u128::from_str`, which accepts decimal digits with an optional
/// `+` and fails when the value does not fit.
#[verifier::external_body]
pub(crate) fn parse_u128(s: &str) -> (r: Option<u128>)
    ensures
        r is Some <==> (unsigned_literal(s@) matches Some(v) && v <= u128::MAX),
        r matches Some(v) ==> unsigned_literal(s@) == Some(v as int),
{
    s.parse::<u128>().ok()
}

} // verus!
