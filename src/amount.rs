//! Exact decimal amounts, held as a mantissa and a power-of-ten scale.
//!
//! The arithmetic itself is done by `rust_decimal`; the library only holds
//! the two plain integers that make up such a number.

use rust_decimal::Decimal;
use vstd::prelude::*;

verus! {

/// Largest mantissa magnitude of a decimal: 2^96 - 1.
pub const MAX_MANTISSA: i128 = 0xFFFF_FFFF_FFFF_FFFF_FFFF_FFFF;

/// Largest number of digits after the decimal point.
pub const MAX_SCALE: u32 = 28;

/// `10^n`.
pub open spec fn pow10(n: nat) -> int
    decreases n,
{
    if n == 0 {
        1
    } else {
        10 * pow10((n - 1) as nat)
    }
}

/// An exact decimal number: `mantissa / 10^scale`.
#[derive(Clone, Copy, Debug)]
pub struct Amount {
    pub mantissa: i128,
    pub scale: u32,
}

impl Amount {
    /// The mantissa and the scale lie in the range of a decimal.
    pub open spec fn wf(self) -> bool {
        &&& self.scale <= MAX_SCALE
        &&& -MAX_MANTISSA <= self.mantissa <= MAX_MANTISSA
    }

    /// The value, counted in units of `10^-28`: exact for every well-formed amount.
    pub open spec fn units(self) -> int {
        self.mantissa * pow10((MAX_SCALE - self.scale) as nat)
    }

    /// Zero.
    pub fn zero() -> (r: Amount)
        ensures
            r == (Amount { mantissa: 0, scale: 0 }),
            r.wf(),
            r.units() == 0,
    {
        Amount { mantissa: 0, scale: 0 }
    }

    /// The amount `mantissa / 10^scale`, or `None` where that lies outside
    /// the range of a decimal.
    pub fn new(mantissa: i128, scale: u32) -> (r: Option<Amount>)
        ensures
            r is Some <==> (scale <= MAX_SCALE && -MAX_MANTISSA <= mantissa <= MAX_MANTISSA),
            r matches Some(a) ==> a.mantissa == mantissa && a.scale == scale && a.wf(),
    {
        if scale <= MAX_SCALE && -MAX_MANTISSA <= mantissa && mantissa <= MAX_MANTISSA {
            Some(Amount { mantissa, scale })
        } else {
            None
        }
    }
}

/// The larger of two scales.
pub open spec fn common_scale(a: Amount, b: Amount) -> nat {
    if a.scale >= b.scale {
        a.scale as nat
    } else {
        b.scale as nat
    }
}

/// `u` units of `10^-28` can be written with a mantissa of at most 96 bits at
/// the larger scale of `a` and `b`: the sum or difference of the two is then
/// exact.
pub open spec fn fits_between(a: Amount, b: Amount, u: int) -> bool {
    let bound = MAX_MANTISSA * pow10((MAX_SCALE - common_scale(a, b)) as nat);
    -bound <= u <= bound
}

/// Relies on `Decimal::from_i128_with_scale` and `Decimal::checked_add`: the
/// sum stays within a decimal's range, and is exact whenever the exact sum
/// fits 96 bits at the larger scale of the two operands (otherwise the crate
/// rounds to a smaller scale or reports overflow).
#[verifier::external_body]
fn decimal_checked_add(a: Amount, b: Amount) -> (r: Option<Amount>)
    requires
        a.wf(),
        b.wf(),
    ensures
        r matches Some(c) ==> c.wf(),
        fits_between(a, b, a.units() + b.units()) ==> r is Some,
        fits_between(a, b, a.units() + b.units()) ==> r->0.units() == a.units() + b.units(),
{
    let x = Decimal::from_i128_with_scale(a.mantissa, a.scale);
    let y = Decimal::from_i128_with_scale(b.mantissa, b.scale);
    match x.checked_add(y) {
        Some(d) => Some(Amount { mantissa: d.mantissa(), scale: d.scale() }),
        None => None,
    }
}

/// Relies on `Decimal::from_i128_with_scale` and `Decimal::checked_sub`, as
/// for the sum above.
#[verifier::external_body]
fn decimal_checked_sub(a: Amount, b: Amount) -> (r: Option<Amount>)
    requires
        a.wf(),
        b.wf(),
    ensures
        r matches Some(c) ==> c.wf(),
        fits_between(a, b, a.units() - b.units()) ==> r is Some,
        fits_between(a, b, a.units() - b.units()) ==> r->0.units() == a.units() - b.units(),
{
    let x = Decimal::from_i128_with_scale(a.mantissa, a.scale);
    let y = Decimal::from_i128_with_scale(b.mantissa, b.scale);
    match x.checked_sub(y) {
        Some(d) => Some(Amount { mantissa: d.mantissa(), scale: d.scale() }),
        None => None,
    }
}

/// Relies on `Decimal::from_i128_with_scale` and `Decimal`'s `Ord`, which
/// compares numeric values whatever the scales.
#[verifier::external_body]
fn decimal_ge(a: Amount, b: Amount) -> (r: bool)
    requires
        a.wf(),
        b.wf(),
    ensures
        r == (a.units() >= b.units()),
{
    Decimal::from_i128_with_scale(a.mantissa, a.scale) >= Decimal::from_i128_with_scale(
        b.mantissa,
        b.scale,
    )
}

impl Amount {
    /// `self + other`; `None` only where the sum leaves a decimal's range.
    /// Exact whenever the exact sum fits at the larger of the two scales.
    pub fn checked_add(self, other: Amount) -> (r: Option<Amount>)
        requires
            self.wf(),
            other.wf(),
        ensures
            r matches Some(c) ==> c.wf(),
            fits_between(self, other, self.units() + other.units()) ==> (r matches Some(c)
                && c.units() == self.units() + other.units()),
    {
        decimal_checked_add(self, other)
    }

    /// `self - other`; `None` only where the difference leaves a decimal's
    /// range. Exact whenever the exact difference fits at the larger scale.
    pub fn checked_sub(self, other: Amount) -> (r: Option<Amount>)
        requires
            self.wf(),
            other.wf(),
        ensures
            r matches Some(c) ==> c.wf(),
            fits_between(self, other, self.units() - other.units()) ==> (r matches Some(c)
                && c.units() == self.units() - other.units()),
    {
        decimal_checked_sub(self, other)
    }

    /// Numeric `self >= other`, whatever the two scales.
    pub fn ge(self, other: Amount) -> (r: bool)
        requires
            self.wf(),
            other.wf(),
        ensures
            r == (self.units() >= other.units()),
    {
        decimal_ge(self, other)
    }

    /// `self > 0`.
    pub fn is_positive(self) -> (r: bool)
        requires
            self.wf(),
        ensures
            r == (self.units() > 0),
    {
        !decimal_ge(Amount::zero(), self)
    }
}

} // verus!
