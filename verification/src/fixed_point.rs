//! Fixed-point numbers and per-million ratios, held as their raw integer
//! parts. The arithmetic itself is done by `sp_arithmetic`.

use vstd::prelude::*;
use sp_arithmetic::traits::{CheckedAdd, CheckedDiv, CheckedMul};
use sp_arithmetic::FixedPointNumber;

verus! {

/// Number of raw units in `1.0` of a [`FixedU128`].
pub const FIXED_DIV: u128 = 1_000_000_000_000_000_000;

/// Number of parts in one whole [`Permill`].
pub const PERMILL_ACCURACY: u32 = 1_000_000;

/// What `sp_arithmetic`'s `multiply_by_rational(a, b, c)` returns: `a * b / c`
/// rounded down, except that when the product does not fit in 128 bits and
/// the divisor needs more than 32 bits the quotient is rounded half up;
/// `None` when the quotient does not fit in 128 bits. A divisor of 0 acts as 1.
pub open spec fn rational_product(a: u128, b: u128, c: u128) -> Option<u128> {
    if a == 0 || b == 0 {
        Some(0u128)
    } else {
        let d: int = if c == 0 { 1 } else { c as int };
        let p: int = a as int * b as int;
        let q: int = if p > u128::MAX && d >= 0x1_0000_0000 && p % d > d / 2 {
            p / d + 1
        } else {
            p / d
        };
        if q > u128::MAX {
            None
        } else {
            Some(q as u128)
        }
    }
}

/// `FixedU128::checked_mul` on raw values.
pub open spec fn fixed_mul(a: u128, b: u128) -> Option<u128> {
    rational_product(a, b, FIXED_DIV)
}

/// `FixedU128::checked_div` on raw values.
pub open spec fn fixed_div(a: u128, b: u128) -> Option<u128> {
    if b == 0 {
        None
    } else {
        rational_product(a, FIXED_DIV, b)
    }
}

/// `FixedU128::checked_add` on raw values.
pub open spec fn fixed_add(a: u128, b: u128) -> Option<u128> {
    if a + b > u128::MAX {
        None
    } else {
        Some((a + b) as u128)
    }
}

/// `FixedU128::checked_mul_int` on a raw value and an integer.
pub open spec fn fixed_mul_int(a: u128, n: u128) -> Option<u128> {
    rational_product(a, n, FIXED_DIV)
}

/// Raw value of the fixed-point number `n`, saturating at the largest value.
pub open spec fn fixed_from_integer(n: u128) -> u128 {
    if n * FIXED_DIV > u128::MAX {
        u128::MAX
    } else {
        (n * FIXED_DIV) as u128
    }
}

/// An unsigned fixed-point number with 18 decimal places, stored as its raw
/// value: the number `x` is held as `x * 10^18`.
#[derive(Clone, Copy, Debug, PartialEq, Eq, Structural)]
pub struct FixedU128 {
    pub inner: u128,
}

impl FixedU128 {
    /// The number whose raw value is `inner`.
    pub fn from_inner(inner: u128) -> (r: FixedU128)
        ensures
            r.inner == inner,
    {
        FixedU128 { inner }
    }

    /// The raw value of `self`.
    pub fn into_inner(self) -> (r: u128)
        ensures
            r == self.inner,
    {
        self.inner
    }
}

/// A ratio in parts per million.
#[derive(Clone, Copy, Debug, PartialEq, Eq, Structural)]
pub struct Permill {
    pub parts: u32,
}

impl Permill {
    /// The ratio of `parts` per million, at most one whole.
    pub fn from_parts(parts: u32) -> (r: Permill)
        ensures
            r.parts == if parts > PERMILL_ACCURACY { PERMILL_ACCURACY } else { parts },
    {
        Permill { parts: permill_parts(parts) }
    }

    /// Whether the ratio is zero.
    pub fn is_zero(&self) -> (r: bool)
        ensures
            r == (self.parts == 0),
    {
        permill_is_zero(self.parts)
    }
}

/// Calls `Permill::from_parts` and `deconstruct`: the parts are clamped to
/// one million.
#[verifier::external_body]
fn permill_parts(parts: u32) -> (r: u32)
    ensures
        r == if parts > PERMILL_ACCURACY { PERMILL_ACCURACY } else { parts },
{
    sp_arithmetic::Permill::from_parts(parts).deconstruct()
}

/// Calls `Permill::is_zero` on `Permill::from_parts(parts)`: true exactly
/// when no parts are held.
#[verifier::external_body]
fn permill_is_zero(parts: u32) -> (r: bool)
    ensures
        r == (parts == 0),
{
    sp_arithmetic::Permill::from_parts(parts).is_zero()
}

/// Calls `CheckedMul::checked_mul` of `sp_arithmetic::FixedU128` on the raw
/// values `a` and `b`; the result is what `multiply_by_rational(a, b, 10^18)`
/// gives.
#[verifier::external_body]
pub(crate) fn checked_mul(a: u128, b: u128) -> (r: Option<u128>)
    ensures
        r == fixed_mul(a, b),
{
    let x = sp_arithmetic::FixedU128::from_inner(a);
    let y = sp_arithmetic::FixedU128::from_inner(b);
    match x.checked_mul(&y) {
        Some(z) => Some(z.into_inner()),
        None => None,
    }
}

/// Calls `CheckedDiv::checked_div` of `sp_arithmetic::FixedU128` on the raw
/// values `a` and `b`: `None` for a zero divisor, else what
/// `multiply_by_rational(a, 10^18, b)` gives.
#[verifier::external_body]
pub(crate) fn checked_div(a: u128, b: u128) -> (r: Option<u128>)
    ensures
        r == fixed_div(a, b),
{
    let x = sp_arithmetic::FixedU128::from_inner(a);
    let y = sp_arithmetic::FixedU128::from_inner(b);
    match x.checked_div(&y) {
        Some(z) => Some(z.into_inner()),
        None => None,
    }
}

/// Calls `CheckedAdd::checked_add` of `sp_arithmetic::FixedU128` on the raw
/// values: their sum, or `None` when it overflows.
#[verifier::external_body]
pub(crate) fn checked_add(a: u128, b: u128) -> (r: Option<u128>)
    ensures
        r == fixed_add(a, b),
{
    let x = sp_arithmetic::FixedU128::from_inner(a);
    let y = sp_arithmetic::FixedU128::from_inner(b);
    match x.checked_add(&y) {
        Some(z) => Some(z.into_inner()),
        None => None,
    }
}

/// Calls `FixedPointNumber::checked_mul_int` of `sp_arithmetic::FixedU128`
/// with the raw value `a` and the integer `n`: what
/// `multiply_by_rational(a, n, 10^18)` gives.
#[verifier::external_body]
pub(crate) fn checked_mul_int(a: u128, n: u128) -> (r: Option<u128>)
    ensures
        r == fixed_mul_int(a, n),
{
    sp_arithmetic::FixedU128::from_inner(a).checked_mul_int(n)
}

/// Calls `FixedPointNumber::is_one` of `sp_arithmetic::FixedU128`, which in
/// this version compares the raw value with the integer 1.
#[verifier::external_body]
pub(crate) fn is_one(a: u128) -> (r: bool)
    ensures
        r == (a == 1),
{
    FixedPointNumber::is_one(&sp_arithmetic::FixedU128::from_inner(a))
}

/// Calls `From<u128>` of `sp_arithmetic::FixedU128`
/// (`saturating_from_integer`): the raw value `n * 10^18`, saturated.
#[verifier::external_body]
pub(crate) fn from_integer(n: u128) -> (r: u128)
    ensures
        r == fixed_from_integer(n),
{
    sp_arithmetic::FixedU128::from(n).into_inner()
}

} // verus!
