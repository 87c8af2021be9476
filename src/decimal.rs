//! Exact decimal numbers as mantissa and scale, with arithmetic delegated to
//! `rust_decimal`.
use vstd::prelude::*;

use core::cmp::Ordering;

verus! {

/// Largest magnitude of a mantissa: 96 bits.
pub const MAX_MANTISSA: i128 = 0xFFFF_FFFF_FFFF_FFFF_FFFF_FFFF;

/// Largest number of digits after the decimal point.
pub const MAX_SCALE: u32 = 28;

/// A decimal number `mantissa / 10^scale`.
#[derive(Clone, Copy, Debug, PartialEq, Eq, Structural)]
pub struct Dec {
    pub mantissa: i128,
    pub scale: u32,
}

/// `10^n`.
pub open spec fn pow10(n: nat) -> int
    decreases n,
{
    if n == 0 {
        1
    } else {
        10 * pow10((n - 1) as nat)
    }
}

/// Numeric order of two decimals given as (mantissa, scale).
pub open spec fn value_lt(a: (int, nat), b: (int, nat)) -> bool {
    a.0 * pow10(b.1) < b.0 * pow10(a.1)
}

/// Numeric equality of two decimals given as (mantissa, scale).
pub open spec fn value_eq(a: (int, nat), b: (int, nat)) -> bool {
    a.0 * pow10(b.1) == b.0 * pow10(a.1)
}

pub open spec fn value_le(a: (int, nat), b: (int, nat)) -> bool {
    value_lt(a, b) || value_eq(a, b)
}

/// Three-way numeric comparison.
pub open spec fn value_cmp(a: (int, nat), b: (int, nat)) -> Ordering {
    if value_lt(a, b) {
        Ordering::Less
    } else if value_eq(a, b) {
        Ordering::Equal
    } else {
        Ordering::Greater
    }
}

/// The integer part of a decimal, rounded toward zero.
pub open spec fn trunc(a: (int, nat)) -> int {
    if a.0 >= 0 {
        a.0 / pow10(a.1)
    } else {
        -((-a.0) / pow10(a.1))
    }
}

/// What `rust_decimal` computes for `a / b`, rounded to its precision, or
/// `None` where it fails.
pub uninterp spec fn quotient_of(a: (int, nat), b: (int, nat)) -> Option<(int, nat)>;

/// What `rust_decimal` computes for `a * b`, rounded to its precision, or
/// `None` where it fails.
pub uninterp spec fn product_of(a: (int, nat), b: (int, nat)) -> Option<(int, nat)>;

/// What `rust_decimal` computes for `a + b`, rounded to its precision, or
/// `None` where it fails.
pub uninterp spec fn sum_of(a: (int, nat), b: (int, nat)) -> Option<(int, nat)>;

/// What `rust_decimal` computes for `a - b`, rounded to its precision, or
/// `None` where it fails.
pub uninterp spec fn difference_of(a: (int, nat), b: (int, nat)) -> Option<(int, nat)>;

/// The integer part of a decimal as a `u64`, where it is not negative and fits.
pub open spec fn whole_units(d: Option<Dec>) -> Option<u64> {
    match d {
        Some(p) => if p.mantissa >= 0 && trunc(p@) <= u64::MAX {
            Some(trunc(p@) as u64)
        } else {
            None
        },
        None => None,
    }
}

/// The decimal whose (mantissa, scale) is `v`.
pub open spec fn dec_of(v: (int, nat)) -> Dec {
    Dec { mantissa: v.0 as i128, scale: v.1 as u32 }
}

/// The outcome of a decimal operation as a decimal.
pub open spec fn dec_opt(v: Option<(int, nat)>) -> Option<Dec> {
    match v {
        Some(p) => Some(dec_of(p)),
        None => None,
    }
}

impl View for Dec {
    type V = (int, nat);

    open spec fn view(&self) -> (int, nat) {
        (self.mantissa as int, self.scale as nat)
    }
}

impl Dec {
    /// The mantissa fits in 96 bits and the scale is at most 28.
    pub open spec fn wf(&self) -> bool {
        -MAX_MANTISSA <= self.mantissa <= MAX_MANTISSA && self.scale <= MAX_SCALE
    }

    /// `num / 10^scale`; `None` where the scale exceeds 28.
    pub fn new(num: i64, scale: u32) -> (r: Option<Dec>)
        ensures
            r is Some <==> scale <= MAX_SCALE,
            r matches Some(d) ==> d.wf() && d@ == (num as int, scale as nat),
    {
        if scale <= MAX_SCALE {
            Some(Dec { mantissa: num as i128, scale })
        } else {
            None
        }
    }

    /// `mantissa / 10^scale`; `None` where either part is out of range.
    pub fn from_parts(mantissa: i128, scale: u32) -> (r: Option<Dec>)
        ensures
            r is Some <==> (-MAX_MANTISSA <= mantissa <= MAX_MANTISSA && scale <= MAX_SCALE),
            r matches Some(d) ==> d.wf() && d@ == (mantissa as int, scale as nat),
    {
        if -MAX_MANTISSA <= mantissa && mantissa <= MAX_MANTISSA && scale <= MAX_SCALE {
            Some(Dec { mantissa, scale })
        } else {
            None
        }
    }

    /// The number one.
    pub fn one() -> (r: Dec)
        ensures
            r.wf(),
            r@ == (1int, 0nat),
    {
        Dec { mantissa: 1, scale: 0 }
    }

    /// Numeric comparison.
    pub fn compare(&self, other: &Dec) -> (r: Ordering)
        requires
            self.wf(),
            other.wf(),
        ensures
            r == value_cmp(self@, other@),
    {
        decimal_cmp(*self, *other)
    }

    /// `self < other`, numerically.
    pub fn lt(&self, other: &Dec) -> (r: bool)
        requires
            self.wf(),
            other.wf(),
        ensures
            r == value_lt(self@, other@),
    {
        match decimal_cmp(*self, *other) {
            Ordering::Less => true,
            _ => false,
        }
    }

    /// `self <= other`, numerically.
    pub fn le(&self, other: &Dec) -> (r: bool)
        requires
            self.wf(),
            other.wf(),
        ensures
            r == value_le(self@, other@),
    {
        match decimal_cmp(*self, *other) {
            Ordering::Greater => false,
            _ => true,
        }
    }

    /// `self / other`; `None` on a zero divisor or an overflow.
    pub fn checked_div(&self, other: &Dec) -> (r: Option<Dec>)
        requires
            self.wf(),
            other.wf(),
        ensures
            other.mantissa == 0 ==> r is None,
            r == dec_opt(quotient_of(self@, other@)),
            r matches Some(q) ==> q.wf(),
    {
        decimal_div(*self, *other)
    }

    /// `self * other`; `None` on an overflow.
    pub fn checked_mul(&self, other: &Dec) -> (r: Option<Dec>)
        requires
            self.wf(),
            other.wf(),
        ensures
            r == dec_opt(product_of(self@, other@)),
            r matches Some(p) ==> p.wf(),
    {
        decimal_mul(*self, *other)
    }

    /// `self + other`; `None` on an overflow.
    pub fn checked_add(&self, other: &Dec) -> (r: Option<Dec>)
        requires
            self.wf(),
            other.wf(),
        ensures
            r == dec_opt(sum_of(self@, other@)),
            r matches Some(s) ==> s.wf(),
    {
        decimal_add(*self, *other)
    }

    /// `self - other`; `None` on an overflow.
    pub fn checked_sub(&self, other: &Dec) -> (r: Option<Dec>)
        requires
            self.wf(),
            other.wf(),
        ensures
            r == dec_opt(difference_of(self@, other@)),
            r matches Some(s) ==> s.wf(),
    {
        decimal_sub(*self, *other)
    }

    /// The integer part as a `u64`; `None` for a negative number or one
    /// whose integer part does not fit.
    pub fn to_u64(&self) -> (r: Option<u64>)
        requires
            self.wf(),
        ensures
            r is Some <==> (self.mantissa >= 0 && trunc(self@) <= u64::MAX),
            r matches Some(n) ==> n as int == trunc(self@),
    {
        decimal_to_u64(*self)
    }
}

/// Relies on `Ord for rust_decimal::Decimal`: decimals compare by value.
#[verifier::external_body]
fn decimal_cmp(a: Dec, b: Dec) -> (r: Ordering)
    requires
        a.wf(),
        b.wf(),
    ensures
        r == value_cmp(a@, b@),
{
    let x = rust_decimal::Decimal::from_i128_with_scale(a.mantissa, a.scale);
    let y = rust_decimal::Decimal::from_i128_with_scale(b.mantissa, b.scale);
    x.cmp(&y)
}

/// Relies on `rust_decimal::Decimal::checked_div`: `None` on a zero divisor.
#[verifier::external_body]
fn decimal_div(a: Dec, b: Dec) -> (r: Option<Dec>)
    requires
        a.wf(),
        b.wf(),
    ensures
        b.mantissa == 0 ==> r is None,
        r == dec_opt(quotient_of(a@, b@)),
            r matches Some(q) ==> q.wf(),
{
    let x = rust_decimal::Decimal::from_i128_with_scale(a.mantissa, a.scale);
    let y = rust_decimal::Decimal::from_i128_with_scale(b.mantissa, b.scale);
    x.checked_div(y).map(|q| Dec { mantissa: q.mantissa(), scale: q.scale() })
}

/// Relies on `rust_decimal::Decimal::checked_mul`.
#[verifier::external_body]
fn decimal_mul(a: Dec, b: Dec) -> (r: Option<Dec>)
    requires
        a.wf(),
        b.wf(),
    ensures
        r == dec_opt(product_of(a@, b@)),
            r matches Some(p) ==> p.wf(),
{
    let x = rust_decimal::Decimal::from_i128_with_scale(a.mantissa, a.scale);
    let y = rust_decimal::Decimal::from_i128_with_scale(b.mantissa, b.scale);
    x.checked_mul(y).map(|p| Dec { mantissa: p.mantissa(), scale: p.scale() })
}

/// Relies on `rust_decimal::Decimal::checked_add`.
#[verifier::external_body]
fn decimal_add(a: Dec, b: Dec) -> (r: Option<Dec>)
    requires
        a.wf(),
        b.wf(),
    ensures
        r == dec_opt(sum_of(a@, b@)),
            r matches Some(s) ==> s.wf(),
{
    let x = rust_decimal::Decimal::from_i128_with_scale(a.mantissa, a.scale);
    let y = rust_decimal::Decimal::from_i128_with_scale(b.mantissa, b.scale);
    x.checked_add(y).map(|s| Dec { mantissa: s.mantissa(), scale: s.scale() })
}

/// Relies on `rust_decimal::Decimal::checked_sub`.
#[verifier::external_body]
fn decimal_sub(a: Dec, b: Dec) -> (r: Option<Dec>)
    requires
        a.wf(),
        b.wf(),
    ensures
        r == dec_opt(difference_of(a@, b@)),
            r matches Some(s) ==> s.wf(),
{
    let x = rust_decimal::Decimal::from_i128_with_scale(a.mantissa, a.scale);
    let y = rust_decimal::Decimal::from_i128_with_scale(b.mantissa, b.scale);
    x.checked_sub(y).map(|s| Dec { mantissa: s.mantissa(), scale: s.scale() })
}

/// Relies on `TryFrom<rust_decimal::Decimal> for u64` (`Decimal::to_u64`):
/// a negative number fails, otherwise the integer part, truncated, if it fits.
#[verifier::external_body]
fn decimal_to_u64(a: Dec) -> (r: Option<u64>)
    requires
        a.wf(),
    ensures
        r is Some <==> (a.mantissa >= 0 && trunc(a@) <= u64::MAX),
        r matches Some(n) ==> n as int == trunc(a@),
{
    let x = rust_decimal::Decimal::from_i128_with_scale(a.mantissa, a.scale);
    u64::try_from(x).ok()
}

} // verus!
