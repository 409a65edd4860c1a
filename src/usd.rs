//! An amount of US dollars, kept exactly as a whole number of cents.
use crate::integer::{
    absolute, compare, decimal, difference, digit_char, euclid_mod_u32, from_i64,
    integer_value, is_negative, plus_i64, quotient_i64, sum, times_i64, to_decimal, trunc_div,
};
use vstd::math::abs;
use vstd::prelude::*;
use vstd::string::*;

verus! {

/// The sign that `new` gives to an amount: that of its dollars, with zero counted
/// as positive.
pub open spec fn sign_of(d: int) -> int {
    if d < 0 {
        -1
    } else {
        1
    }
}

/// The number of cents in `dollars` dollars and `cents` cents, the cents counted
/// in the direction of the dollars' sign.
pub open spec fn total_of(dollars: int, cents: int) -> int {
    dollars * 100 + sign_of(dollars) * cents
}

/// The whole dollars in `total` cents, rounded toward zero.
pub open spec fn dollars_of(total: int) -> int {
    trunc_div(total, 100)
}

/// The cents left over beside the whole dollars, never negative.
pub open spec fn cents_of(total: int) -> int {
    abs(total) as int % 100
}

/// The text of an amount: `$D.CC`, with a `-` before it when the amount is
/// negative; `D` is the size of the whole dollars, `CC` the cents on two digits.
pub open spec fn display_of(total: int) -> Seq<char> {
    let sign = if total < 0 {
        seq!['-']
    } else {
        Seq::<char>::empty()
    };
    let c = cents_of(total);
    sign + seq!['$'] + decimal((abs(total) / 100) as nat) + seq!['.', digit_char(c / 10), digit_char(c % 10)]
}

/// An amount of US dollars, held as a signed number of cents of unbounded size.
#[derive(Clone, Eq, Ord)]
pub struct USD {
    total_cents: rug::Integer,
}

impl View for USD {
    type V = int;

    /// The amount in cents.
    closed spec fn view(&self) -> int {
        integer_value(self.total_cents)
    }
}

impl USD {
    /// The amount of `dollars` dollars and `cents` cents. The cents may exceed 99,
    /// and they add to the dollars in the direction of the dollars' sign (zero
    /// dollars count as positive): `new(-1, 115)` is minus two dollars fifteen.
    pub fn new(dollars: i64, cents: usize) -> (r: USD)
        ensures
            r@ == total_of(dollars as int, cents as int),
    {
        let carry = cents / 100;
        let remaining_cents: i64 = (cents % 100) as i64;
        let sign: i64 = if dollars < 0 { -1 } else { 1 };
        let carry: i64 = carry as i64;
        let carry: i64 = carry * sign;
        let whole = from_i64(dollars);
        let whole = plus_i64(whole, carry);
        let cents_part: i64 = sign * remaining_cents;
        let total = plus_i64(times_i64(whole, 100), cents_part);
        proof {
            let c = cents as int;
            assert(c == 100 * (c / 100) + c % 100);
            assert(sign * (c / 100) * 100 == sign * (100 * (c / 100))) by (nonlinear_arith);
            assert(sign * c == sign * (100 * (c / 100)) + sign * (c % 100)) by (nonlinear_arith)
                requires c == 100 * (c / 100) + c % 100;
        }
        USD { total_cents: total }
    }

    /// The amount of `total_cents` cents.
    pub fn from_cents(total_cents: rug::Integer) -> (r: USD)
        ensures
            r@ == integer_value(total_cents),
    {
        USD { total_cents }
    }

    /// The whole dollars, rounded toward zero: negative for amounts of a dollar or
    /// more below zero.
    pub fn dollars(&self) -> (r: rug::Integer)
        ensures
            integer_value(r) == dollars_of(self@),
    {
        quotient_i64(self.total_cents.clone(), 100)
    }

    /// The cents beside the whole dollars, in `0..=99` whatever the sign:
    /// minus seven dollars four has cents 4.
    pub fn cents(&self) -> (r: u32)
        ensures
            r == cents_of(self@),
            r < 100,
    {
        let euclid_remainder = euclid_mod_u32(&self.total_cents, 100);
        if is_negative(&self.total_cents) && euclid_remainder != 0 {
            proof {
                let t = self@;
                assert(abs(t) == -t);
                assert((-t) % 100 == 100 - t % 100) by (nonlinear_arith)
                    requires t % 100 != 0, 0 <= t % 100 < 100;
            }
            100 - euclid_remainder
        } else {
            euclid_remainder
        }
    }

    /// The sum of the two amounts.
    pub fn plus(&self, other: &USD) -> (r: USD)
        ensures
            r@ == self@ + other@,
    {
        USD { total_cents: sum(&self.total_cents, &other.total_cents) }
    }

    /// The first amount less the second.
    pub fn minus(&self, other: &USD) -> (r: USD)
        ensures
            r@ == self@ - other@,
    {
        USD { total_cents: difference(&self.total_cents, &other.total_cents) }
    }
    /// The amount as text: `$15.30`, `-$300.16`, `-$0.04`.
    pub fn to_string(&self) -> (r: String)
        ensures
            r@ == display_of(self@),
    {
        let mut text = String::new();
        if is_negative(&self.total_cents) {
            text.append("-");
        }
        text.append("$");
        let whole = to_decimal(&absolute(self.dollars()));
        text.append(whole.as_str());
        text.append(".");
        let cents = self.cents();
        if cents < 10 {
            text.append("0");
        }
        let digits = to_decimal(&from_i64(cents as i64));
        text.append(digits.as_str());
        proof {
            reveal_strlit("-");
            reveal_strlit("$");
            reveal_strlit(".");
            reveal_strlit("0");
            let t = self@;
            let c = cents as int;
            assert(abs(dollars_of(t)) == abs(t) / 100);
            if c >= 10 {
                assert(decimal((c / 10) as nat) == seq![digit_char(c / 10)]);
                assert(digits@ == seq![digit_char(c / 10), digit_char(c % 10)]);
            } else {
                assert(digit_char(0) == '0');
            }
            let sign = if t < 0 {
                seq!['-']
            } else {
                Seq::<char>::empty()
            };
            assert(text@ =~= display_of(t));
        }
        text
    }
}

impl PartialEq for USD {
    fn eq(&self, other: &USD) -> (r: bool) {
        match compare(&self.total_cents, &other.total_cents) {
            core::cmp::Ordering::Equal => true,
            _ => false,
        }
    }
}

impl vstd::std_specs::cmp::PartialEqSpecImpl for USD {
    /// Two amounts are equal when they hold the same number of cents.
    open spec fn obeys_eq_spec() -> bool {
        true
    }

    open spec fn eq_spec(&self, other: &USD) -> bool {
        self@ == other@
    }
}

impl PartialOrd for USD {
    fn partial_cmp(&self, other: &USD) -> (r: Option<core::cmp::Ordering>) {
        Some(compare(&self.total_cents, &other.total_cents))
    }
}

impl vstd::std_specs::cmp::PartialOrdSpecImpl for USD {
    /// Amounts are ordered by their number of cents.
    open spec fn obeys_partial_cmp_spec() -> bool {
        true
    }

    open spec fn partial_cmp_spec(&self, other: &USD) -> Option<core::cmp::Ordering> {
        if self@ < other@ {
            Some(core::cmp::Ordering::Less)
        } else if self@ == other@ {
            Some(core::cmp::Ordering::Equal)
        } else {
            Some(core::cmp::Ordering::Greater)
        }
    }
}

impl From<rug::Integer> for USD {
    fn from(total_cents: rug::Integer) -> (r: USD)
        ensures
            r@ == integer_value(total_cents),
    {
        USD { total_cents }
    }
}

impl vstd::std_specs::convert::FromSpecImpl<rug::Integer> for USD {
    /// The amount of that many cents.
    open spec fn obeys_from_spec() -> bool {
        true
    }

    closed spec fn from_spec(total_cents: rug::Integer) -> USD {
        USD { total_cents }
    }
}

impl vstd::std_specs::ops::AddSpecImpl<&USD> for &USD {
    /// An amount holds an opaque integer, so no spec function can name the
    /// result; the method's own `ensures` states it instead.
    open spec fn obeys_add_spec() -> bool {
        false
    }

    open spec fn add_req(self, other: &USD) -> bool {
        true
    }

    open spec fn add_spec(self, other: &USD) -> USD {
        arbitrary()
    }
}

impl core::ops::Add<&USD> for &USD {
    type Output = USD;

    fn add(self, other: &USD) -> (r: USD)
        ensures
            r@ == self@ + other@,
    {
        self.plus(other)
    }
}

impl vstd::std_specs::ops::AddSpecImpl<USD> for &USD {
    /// An amount holds an opaque integer, so no spec function can name the
    /// result; the method's own `ensures` states it instead.
    open spec fn obeys_add_spec() -> bool {
        false
    }

    open spec fn add_req(self, other: USD) -> bool {
        true
    }

    open spec fn add_spec(self, other: USD) -> USD {
        arbitrary()
    }
}

impl core::ops::Add<USD> for &USD {
    type Output = USD;

    fn add(self, other: USD) -> (r: USD)
        ensures
            r@ == self@ + other@,
    {
        self.plus(&other)
    }
}

impl vstd::std_specs::ops::AddSpecImpl<&USD> for USD {
    /// An amount holds an opaque integer, so no spec function can name the
    /// result; the method's own `ensures` states it instead.
    open spec fn obeys_add_spec() -> bool {
        false
    }

    open spec fn add_req(self, other: &USD) -> bool {
        true
    }

    open spec fn add_spec(self, other: &USD) -> USD {
        arbitrary()
    }
}

impl core::ops::Add<&USD> for USD {
    type Output = USD;

    fn add(self, other: &USD) -> (r: USD)
        ensures
            r@ == self@ + other@,
    {
        self.plus(other)
    }
}

impl vstd::std_specs::ops::AddSpecImpl<USD> for USD {
    /// An amount holds an opaque integer, so no spec function can name the
    /// result; the method's own `ensures` states it instead.
    open spec fn obeys_add_spec() -> bool {
        false
    }

    open spec fn add_req(self, other: USD) -> bool {
        true
    }

    open spec fn add_spec(self, other: USD) -> USD {
        arbitrary()
    }
}

impl core::ops::Add<USD> for USD {
    type Output = USD;

    fn add(self, other: USD) -> (r: USD)
        ensures
            r@ == self@ + other@,
    {
        self.plus(&other)
    }
}

impl vstd::std_specs::ops::SubSpecImpl<&USD> for &USD {
    /// An amount holds an opaque integer, so no spec function can name the
    /// result; the method's own `ensures` states it instead.
    open spec fn obeys_sub_spec() -> bool {
        false
    }

    open spec fn sub_req(self, other: &USD) -> bool {
        true
    }

    open spec fn sub_spec(self, other: &USD) -> USD {
        arbitrary()
    }
}

impl core::ops::Sub<&USD> for &USD {
    type Output = USD;

    fn sub(self, other: &USD) -> (r: USD)
        ensures
            r@ == self@ - other@,
    {
        self.minus(other)
    }
}

impl vstd::std_specs::ops::SubSpecImpl<USD> for &USD {
    /// An amount holds an opaque integer, so no spec function can name the
    /// result; the method's own `ensures` states it instead.
    open spec fn obeys_sub_spec() -> bool {
        false
    }

    open spec fn sub_req(self, other: USD) -> bool {
        true
    }

    open spec fn sub_spec(self, other: USD) -> USD {
        arbitrary()
    }
}

impl core::ops::Sub<USD> for &USD {
    type Output = USD;

    fn sub(self, other: USD) -> (r: USD)
        ensures
            r@ == self@ - other@,
    {
        self.minus(&other)
    }
}

impl vstd::std_specs::ops::SubSpecImpl<&USD> for USD {
    /// An amount holds an opaque integer, so no spec function can name the
    /// result; the method's own `ensures` states it instead.
    open spec fn obeys_sub_spec() -> bool {
        false
    }

    open spec fn sub_req(self, other: &USD) -> bool {
        true
    }

    open spec fn sub_spec(self, other: &USD) -> USD {
        arbitrary()
    }
}

impl core::ops::Sub<&USD> for USD {
    type Output = USD;

    fn sub(self, other: &USD) -> (r: USD)
        ensures
            r@ == self@ - other@,
    {
        self.minus(other)
    }
}

impl vstd::std_specs::ops::SubSpecImpl<USD> for USD {
    /// An amount holds an opaque integer, so no spec function can name the
    /// result; the method's own `ensures` states it instead.
    open spec fn obeys_sub_spec() -> bool {
        false
    }

    open spec fn sub_req(self, other: USD) -> bool {
        true
    }

    open spec fn sub_spec(self, other: USD) -> USD {
        arbitrary()
    }
}

impl core::ops::Sub<USD> for USD {
    type Output = USD;

    fn sub(self, other: USD) -> (r: USD)
        ensures
            r@ == self@ - other@,
    {
        self.minus(&other)
    }
}

/// Whatever `new` is given, its whole dollars and its cents give back the amount:
/// the dollars times a hundred, plus the cents in the direction of the dollars'
/// sign, is the total; and the cents lie in `0..=99`.
pub proof fn lemma_new_splits_into_dollars_and_cents(dollars: int, cents: nat)
    ensures
        ({
            let t = total_of(dollars, cents as int);
            &&& dollars_of(t) * 100 + sign_of(dollars_of(t)) * cents_of(t) == t
            &&& 0 <= cents_of(t) < 100
        }),
{
    let t = total_of(dollars, cents as int);
    let c = cents as int;
    if dollars < 0 {
        assert(abs(t) == c - 100 * dollars);
        assert((c - 100 * dollars) / 100 == c / 100 - dollars) by (nonlinear_arith)
            requires dollars < 0, c >= 0;
        assert((c - 100 * dollars) % 100 == c % 100) by (nonlinear_arith)
            requires dollars < 0, c >= 0;
        assert(c == 100 * (c / 100) + c % 100);
    } else {
        assert(abs(t) == t);
        assert(t == 100 * (t / 100) + t % 100);
    }
}

/// The zero amount, `new(0, 0)`, changes nothing when added or subtracted.
pub proof fn lemma_zero_is_identity(m: USD)
    ensures
        m@ + total_of(0, 0) == m@,
        m@ - total_of(0, 0) == m@,
{
}

/// Addition of amounts is commutative.
pub proof fn lemma_add_commutes(a: USD, b: USD)
    ensures
        a@ + b@ == b@ + a@,
{
}

/// Subtracting an amount adds its negation, and an amount less itself is the
/// zero amount `new(0, 0)`.
pub proof fn lemma_sub_adds_negation(a: USD, b: USD)
    ensures
        a@ - b@ == a@ + (-b@),
        a@ - a@ == total_of(0, 0),
{
}

} // verus!
