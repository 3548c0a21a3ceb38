//! Monetary amounts: decimal numbers held as a mantissa and a scale.
//!
//! The value of an amount is `mantissa * 10^-scale`, exactly as a
//! `rust_decimal::Decimal` with the same parts. Arithmetic and comparison
//! are delegated to `rust_decimal`; the contracts below state what those
//! calls return in terms of exact values.

use vstd::prelude::*;
use rust_decimal::Decimal;
use vstd::std_specs::cmp::{PartialEqSpecImpl, PartialOrdSpecImpl};
use core::cmp::Ordering;
use vstd::std_specs::convert::FromSpecImpl;

verus! {

/// The largest scale a decimal can carry (`Decimal::MAX_SCALE`).
pub const MAX_SCALE: u32 = 28;

/// The largest magnitude of a decimal mantissa, `2^96 - 1`.
pub const MAX_MANTISSA: i128 = 79_228_162_514_264_337_593_543_950_335;

/// `10^n`.
pub open spec fn pow10(n: nat) -> int
    decreases n,
{
    if n == 0 {
        1
    } else {
        10 * pow10((n - 1) as nat)
    }
}

pub open spec fn max_nat(a: nat, b: nat) -> nat {
    if a >= b {
        a
    } else {
        b
    }
}

/// The parts of a decimal number: its value is `mantissa * 10^-scale`.
pub struct DecimalParts {
    pub mantissa: int,
    pub scale: nat,
}

impl DecimalParts {
    /// The parts are those of a representable decimal.
    pub open spec fn wf(self) -> bool {
        &&& self.scale <= MAX_SCALE
        &&& -MAX_MANTISSA <= self.mantissa <= MAX_MANTISSA
    }

    /// The exact value, counted in units of `10^-28` (the finest scale),
    /// so that values of different scales compare and add as integers.
    pub open spec fn value(self) -> int {
        self.mantissa * pow10((MAX_SCALE - self.scale) as nat)
    }

    /// Whether `v` (in units of `10^-28`) fits a decimal mantissa at scale `scale`.
    pub open spec fn fits_at(v: int, scale: nat) -> bool {
        let unit = pow10((MAX_SCALE - scale) as nat);
        -MAX_MANTISSA * unit <= v <= MAX_MANTISSA * unit
    }

    /// The exact sum of `self` and `other` is representable at the larger
    /// of their two scales, so no digit of it has to be rounded away.
    pub open spec fn sum_is_exact(self, other: DecimalParts) -> bool {
        Self::fits_at(self.value() + other.value(), max_nat(self.scale, other.scale))
    }

    /// The exact difference `self - other` is representable at the larger
    /// of their two scales.
    pub open spec fn difference_is_exact(self, other: DecimalParts) -> bool {
        Self::fits_at(self.value() - other.value(), max_nat(self.scale, other.scale))
    }
}

/// What `Decimal::checked_add` returns for two decimals with the given parts.
pub uninterp spec fn decimal_checked_sum(a: DecimalParts, b: DecimalParts) -> Option<DecimalParts>;

/// What `Decimal::checked_sub` returns for two decimals with the given parts.
pub uninterp spec fn decimal_checked_difference(a: DecimalParts, b: DecimalParts) -> Option<DecimalParts>;

/// The sum that `Decimal::checked_add` gives, where it gives one.
pub open spec fn sum_of(a: DecimalParts, b: DecimalParts) -> DecimalParts {
    decimal_checked_sum(a, b)->Some_0
}

/// The difference that `Decimal::checked_sub` gives, where it gives one.
pub open spec fn difference_of(a: DecimalParts, b: DecimalParts) -> DecimalParts {
    decimal_checked_difference(a, b)->Some_0
}

/// A decimal amount of money, `mantissa * 10^-scale`.
#[derive(Clone, Copy, Debug)]
pub struct Amount {
    mantissa: i128,
    scale: u32,
}

impl View for Amount {
    type V = DecimalParts;

    closed spec fn view(&self) -> DecimalParts {
        DecimalParts { mantissa: self.mantissa as int, scale: self.scale as nat }
    }
}

/// The parts of an optional amount.
pub open spec fn parts_of(a: Option<Amount>) -> Option<DecimalParts> {
    match a {
        Some(x) => Some(x@),
        None => None,
    }
}

impl Amount {
    /// Every amount has the parts of a representable decimal, so that
    /// `Decimal::from_i128_with_scale` accepts them without panicking.
    #[verifier::type_invariant]
    pub open spec fn inv(self) -> bool {
        self@.wf()
    }

    /// The amount `num * 10^-scale` (as `Decimal::new`).
    pub fn new(num: i64, scale: u32) -> (r: Amount)
        requires
            scale <= MAX_SCALE,
        ensures
            r@ == (DecimalParts { mantissa: num as int, scale: scale as nat }),
    {
        Amount { mantissa: num as i128, scale }
    }

    /// The amount `num * 10^-scale` for a full 96-bit mantissa
    /// (as `Decimal::from_i128_with_scale`).
    pub fn from_i128_with_scale(num: i128, scale: u32) -> (r: Amount)
        requires
            scale <= MAX_SCALE,
            -MAX_MANTISSA <= num <= MAX_MANTISSA,
        ensures
            r@ == (DecimalParts { mantissa: num as int, scale: scale as nat }),
    {
        Amount { mantissa: num, scale }
    }

    /// The amount zero.
    pub fn zero() -> (r: Amount)
        ensures
            r@ == (DecimalParts { mantissa: 0, scale: 0 }),
            r@.value() == 0,
    {
        Amount { mantissa: 0, scale: 0 }
    }

    /// The mantissa of the amount.
    pub fn mantissa(&self) -> (r: i128)
        ensures
            r == self@.mantissa,
    {
        self.mantissa
    }

    /// The scale of the amount.
    pub fn scale(&self) -> (r: u32)
        ensures
            r == self@.scale,
    {
        self.scale
    }
}

/// `Decimal::checked_add` on the two amounts. Claims that the result is the
/// named one for these parts, and that where the exact sum is representable
/// at the larger scale the call succeeds with exactly that value, at a
/// scale no larger than the larger of the two.
#[verifier::external_body]
fn checked_sum(a: Amount, b: Amount) -> (r: Option<Amount>)
    ensures
        parts_of(r) == decimal_checked_sum(a@, b@),
        a@.sum_is_exact(b@) ==> (r is Some && r->Some_0@.value() == a@.value() + b@.value()
            && r->Some_0@.scale <= max_nat(a@.scale, b@.scale)),
{
    let x = Decimal::from_i128_with_scale(a.mantissa, a.scale);
    let y = Decimal::from_i128_with_scale(b.mantissa, b.scale);
    match x.checked_add(y) {
        Some(d) => Some(Amount { mantissa: d.mantissa(), scale: d.scale() }),
        None => None,
    }
}

/// `Decimal::checked_sub` on the two amounts. Claims that the result is the
/// named one for these parts, and that where the exact difference is
/// representable at the larger scale the call succeeds with exactly that value,
/// at a scale no larger than the larger of the two.
#[verifier::external_body]
fn checked_difference(a: Amount, b: Amount) -> (r: Option<Amount>)
    ensures
        parts_of(r) == decimal_checked_difference(a@, b@),
        a@.difference_is_exact(b@) ==> (r is Some && r->Some_0@.value() == a@.value() - b@.value()
            && r->Some_0@.scale <= max_nat(a@.scale, b@.scale)),
{
    let x = Decimal::from_i128_with_scale(a.mantissa, a.scale);
    let y = Decimal::from_i128_with_scale(b.mantissa, b.scale);
    match x.checked_sub(y) {
        Some(d) => Some(Amount { mantissa: d.mantissa(), scale: d.scale() }),
        None => None,
    }
}

/// `<` on the two decimals (`PartialOrd::lt`): claims that it compares
/// their exact values.
#[verifier::external_body]
fn decimal_less(a: Amount, b: Amount) -> (r: bool)
    ensures
        r == (a@.value() < b@.value()),
{
    Decimal::from_i128_with_scale(a.mantissa, a.scale) < Decimal::from_i128_with_scale(b.mantissa, b.scale)
}

/// `==` on the two decimals (`PartialEq::eq`): claims that it compares
/// their exact values, whatever their scales.
#[verifier::external_body]
fn decimal_equal(a: Amount, b: Amount) -> (r: bool)
    ensures
        r == (a@.value() == b@.value()),
{
    Decimal::from_i128_with_scale(a.mantissa, a.scale) == Decimal::from_i128_with_scale(b.mantissa, b.scale)
}

/// `Decimal::abs`: claims that it keeps the scale and drops the sign of
/// the mantissa.
#[verifier::external_body]
fn decimal_abs(a: Amount) -> (r: Amount)
    ensures
        r@ == (DecimalParts { mantissa: if a@.mantissa < 0 { -a@.mantissa } else { a@.mantissa }, scale: a@.scale }),
{
    let d = Decimal::from_i128_with_scale(a.mantissa, a.scale).abs();
    Amount { mantissa: d.mantissa(), scale: d.scale() }
}

/// The character of the decimal digit `d`.
pub open spec fn digit_char(d: int) -> char {
    (48 + d) as char
}

/// The decimal digits of `n`, most significant first, without leading
/// zeros (`0` for zero).
pub open spec fn decimal_digits(n: nat) -> Seq<char>
    decreases n,
{
    if n < 10 {
        seq![digit_char(n as int)]
    } else {
        decimal_digits(n / 10).push(digit_char((n % 10) as int))
    }
}

/// A decimal written to four decimal places: a `-` where the mantissa is
/// negative, the digits of the integer part, a point, and the first four
/// digits of the fraction (truncated, and padded with zeros).
pub open spec fn fixed4_text(a: DecimalParts) -> Seq<char> {
    let m: int = if a.mantissa < 0 { -a.mantissa } else { a.mantissa };
    let unit = pow10(a.scale);
    let whole = m / unit;
    let fraction = (m * 10000 / unit) % 10000;
    (if a.mantissa < 0 { seq!['-'] } else { Seq::<char>::empty() })
        + decimal_digits(whole as nat)
        + seq![
        '.',
        digit_char(fraction / 1000),
        digit_char(fraction / 100 % 10),
        digit_char(fraction / 10 % 10),
        digit_char(fraction % 10),
    ]
}

/// `format!("{:.4}", d)` on the decimal (its `Display` with a precision of
/// four): claims the text `fixed4_text` states.
#[verifier::external_body]
pub(crate) fn format_fixed4(a: Amount) -> (r: String)
    ensures
        r@ == fixed4_text(a@),
{
    format!("{:.4}", Decimal::from_i128_with_scale(a.mantissa, a.scale))
}

impl Amount {
    /// Checked addition (`Decimal::checked_add`): `None` where the sum overflows.
    pub fn checked_add(&self, other: &Amount) -> (r: Option<Amount>)
        ensures
            parts_of(r) == decimal_checked_sum(self@, other@),
            self@.sum_is_exact(other@) ==> (r is Some && r->Some_0@.value() == self@.value() + other@.value()
                && r->Some_0@.scale <= max_nat(self@.scale, other@.scale)),
    {
        checked_sum(*self, *other)
    }

    /// Checked subtraction (`Decimal::checked_sub`): `None` where the difference overflows.
    pub fn checked_sub(&self, other: &Amount) -> (r: Option<Amount>)
        ensures
            parts_of(r) == decimal_checked_difference(self@, other@),
            self@.difference_is_exact(other@) ==> (r is Some && r->Some_0@.value() == self@.value() - other@.value()
                && r->Some_0@.scale <= max_nat(self@.scale, other@.scale)),
    {
        checked_difference(*self, *other)
    }

    /// Whether the amount is strictly below `other`.
    pub fn less_than(&self, other: &Amount) -> (r: bool)
        ensures
            r == (self@.value() < other@.value()),
    {
        decimal_less(*self, *other)
    }

    /// Whether the amount is below zero.
    pub fn is_negative(&self) -> (r: bool)
        ensures
            r == (self@.value() < 0),
    {
        decimal_less(*self, Amount::zero())
    }

    /// The absolute value of the amount, at the same scale.
    pub fn abs(&self) -> (r: Amount)
        ensures
            r@.scale == self@.scale,
            r@.value() == if self@.value() < 0 { -self@.value() } else { self@.value() },
    {
        let r = decimal_abs(*self);
        proof {
            use_type_invariant(self);
            let u = pow10((MAX_SCALE - self@.scale) as nat);
            assert((-self@.mantissa) * u == -(self@.mantissa * u)) by (nonlinear_arith);
            lemma_pow10_positive((MAX_SCALE - self@.scale) as nat);
            lemma_sign_of_value(self@);
        }
        r
    }
}

/// `10^n` is positive.
pub proof fn lemma_pow10_positive(n: nat)
    ensures
        pow10(n) > 0,
    decreases n,
{
    if n > 0 {
        lemma_pow10_positive((n - 1) as nat);
    }
}

/// A value has the sign of its mantissa.
pub proof fn lemma_sign_of_value(p: DecimalParts)
    requires
        p.scale <= MAX_SCALE,
    ensures
        p.value() < 0 <==> p.mantissa < 0,
        p.value() == 0 <==> p.mantissa == 0,
{
    let u = pow10((MAX_SCALE - p.scale) as nat);
    lemma_pow10_positive((MAX_SCALE - p.scale) as nat);
    assert(p.mantissa < 0 ==> p.mantissa * u < 0) by (nonlinear_arith)
        requires u > 0;
    assert(p.mantissa > 0 ==> p.mantissa * u > 0) by (nonlinear_arith)
        requires u > 0;
    assert(p.mantissa == 0 ==> p.mantissa * u == 0);
}

impl PartialEq for Amount {
    /// Two amounts are equal when their values are, whatever their scales.
    fn eq(&self, other: &Amount) -> (r: bool) {
        decimal_equal(*self, *other)
    }
}

impl PartialEqSpecImpl for Amount {
    open spec fn obeys_eq_spec() -> bool {
        true
    }

    open spec fn eq_spec(&self, other: &Amount) -> bool {
        self@.value() == other@.value()
    }
}

impl PartialOrd for Amount {
    /// Amounts are ordered by their values, whatever their scales.
    fn partial_cmp(&self, other: &Amount) -> (r: Option<Ordering>) {
        if decimal_less(*self, *other) {
            Some(Ordering::Less)
        } else if decimal_equal(*self, *other) {
            Some(Ordering::Equal)
        } else {
            Some(Ordering::Greater)
        }
    }
}

impl PartialOrdSpecImpl for Amount {
    open spec fn obeys_partial_cmp_spec() -> bool {
        true
    }

    open spec fn partial_cmp_spec(&self, other: &Amount) -> Option<Ordering> {
        if self@.value() < other@.value() {
            Some(Ordering::Less)
        } else if self@.value() == other@.value() {
            Some(Ordering::Equal)
        } else {
            Some(Ordering::Greater)
        }
    }
}

impl From<i64> for Amount {
    /// The whole number `v` (as `Decimal::from`).
    fn from(v: i64) -> (r: Amount)
        ensures
            r@ == (DecimalParts { mantissa: v as int, scale: 0 }),
    {
        Amount { mantissa: v as i128, scale: 0 }
    }
}

impl FromSpecImpl<i64> for Amount {
    open spec fn obeys_from_spec() -> bool {
        true
    }

    closed spec fn from_spec(v: i64) -> Amount {
        Amount { mantissa: v as i128, scale: 0 }
    }
}

} // verus!
