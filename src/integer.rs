//! The arbitrary-precision integers of `rug`, as the rest of the library sees them.
//!
//! A `rug::Integer` is opaque to the verifier. What the library reads of one is its
//! mathematical value, `integer_value`, and every operation it performs on one goes
//! through a wrapper below whose contract states the result over that value.
use vstd::math::abs;
use vstd::prelude::*;

verus! {

#[verifier::external_type_specification]
#[verifier::external_body]
pub struct ExInteger(rug::Integer);

/// The mathematical value that a `rug::Integer` holds.
pub uninterp spec fn integer_value(i: rug::Integer) -> int;

/// The character of a decimal digit.
pub open spec fn digit_char(d: int) -> char {
    seq!['0', '1', '2', '3', '4', '5', '6', '7', '8', '9'][d]
}

/// The decimal digits of `n`, most significant first, without leading zeros
/// (zero itself is the single digit `0`).
pub open spec fn decimal(n: nat) -> Seq<char>
    decreases n,
{
    if n < 10 {
        seq![digit_char(n as int)]
    } else {
        decimal(n / 10).push(digit_char(n as int % 10))
    }
}

/// How an integer is written in base ten: a minus sign before negative values.
pub open spec fn signed_decimal(v: int) -> Seq<char> {
    if v < 0 {
        seq!['-'] + decimal((-v) as nat)
    } else {
        decimal(v as nat)
    }
}

/// The quotient of `a` by `b`, rounded toward zero.
pub open spec fn trunc_div(a: int, b: int) -> int {
    if b > 0 {
        if a >= 0 {
            a / b
        } else {
            -((-a) / b)
        }
    } else {
        if a >= 0 {
            -(a / (-b))
        } else {
            (-a) / (-b)
        }
    }
}

/// Relies on rug's `From<i64> for Integer`: the new integer holds `v`.
#[verifier::external_body]
pub(crate) fn from_i64(v: i64) -> (r: rug::Integer)
    ensures
        integer_value(r) == v,
{
    rug::Integer::from(v)
}

/// Relies on rug's `Clone for Integer` (GMP's `init_set`): the copy holds the
/// same value.
pub assume_specification[ <rug::Integer as core::clone::Clone>::clone ](
    self_: &rug::Integer,
) -> (r: rug::Integer)
    ensures
        integer_value(r) == integer_value(*self_),
;

/// Relies on rug's `Add<&Integer> for &Integer` (an incomplete computation,
/// completed by `From`): the exact sum.
#[verifier::external_body]
pub(crate) fn sum(a: &rug::Integer, b: &rug::Integer) -> (r: rug::Integer)
    ensures
        integer_value(r) == integer_value(*a) + integer_value(*b),
{
    rug::Integer::from(a + b)
}

/// Relies on rug's `Sub<&Integer> for &Integer` (an incomplete computation,
/// completed by `From`): the exact difference.
#[verifier::external_body]
pub(crate) fn difference(a: &rug::Integer, b: &rug::Integer) -> (r: rug::Integer)
    ensures
        integer_value(r) == integer_value(*a) - integer_value(*b),
{
    rug::Integer::from(a - b)
}

/// Relies on rug's `Add<i64> for Integer`: the exact sum.
#[verifier::external_body]
pub(crate) fn plus_i64(a: rug::Integer, b: i64) -> (r: rug::Integer)
    ensures
        integer_value(r) == integer_value(a) + b,
{
    a + b
}

/// Relies on rug's `Mul<i64> for Integer`: the exact product.
#[verifier::external_body]
pub(crate) fn times_i64(a: rug::Integer, b: i64) -> (r: rug::Integer)
    ensures
        integer_value(r) == integer_value(a) * b,
{
    a * b
}

/// Relies on rug's `Div<i64> for Integer`, which rounds toward zero
/// (GMP's `tdiv_q`) and panics on a zero divisor.
#[verifier::external_body]
pub(crate) fn quotient_i64(a: rug::Integer, b: i64) -> (r: rug::Integer)
    requires
        b != 0,
    ensures
        integer_value(r) == trunc_div(integer_value(a), b as int),
{
    a / b
}

/// Relies on `rug::Integer::mod_u`: the remainder of Euclidean division,
/// never negative; it panics on a zero modulus.
#[verifier::external_body]
pub(crate) fn euclid_mod_u32(a: &rug::Integer, m: u32) -> (r: u32)
    requires
        m != 0,
    ensures
        r == integer_value(*a) % (m as int),
{
    a.mod_u(m)
}

/// Relies on rug's `PartialOrd<i32> for Integer`: whether the value is below zero.
#[verifier::external_body]
pub(crate) fn is_negative(a: &rug::Integer) -> (r: bool)
    ensures
        r == (integer_value(*a) < 0),
{
    *a < 0
}

/// Relies on `rug::Integer::abs`: the absolute value.
#[verifier::external_body]
pub(crate) fn absolute(a: rug::Integer) -> (r: rug::Integer)
    ensures
        integer_value(r) == abs(integer_value(a)) as int,
{
    a.abs()
}

/// Relies on rug's `Ord for Integer`: the numeric order of the two values.
#[verifier::external_body]
pub(crate) fn compare(a: &rug::Integer, b: &rug::Integer) -> (r: core::cmp::Ordering)
    ensures
        (r == core::cmp::Ordering::Less) == (integer_value(*a) < integer_value(*b)),
        (r == core::cmp::Ordering::Equal) == (integer_value(*a) == integer_value(*b)),
        (r == core::cmp::Ordering::Greater) == (integer_value(*a) > integer_value(*b)),
{
    a.cmp(b)
}

/// Relies on rug's `Display for Integer`: base ten, a minus sign before
/// negative values and no leading zeros.
#[verifier::external_body]
pub(crate) fn to_decimal(a: &rug::Integer) -> (r: String)
    ensures
        r@ == signed_decimal(integer_value(*a)),
{
    a.to_string()
}

} // verus!
