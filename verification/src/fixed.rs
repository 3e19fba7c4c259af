//! Decimal fixed-point numbers with saturating arithmetic.
//!
//! Coordinates, sizes, ratios and colour channels are all `Fixed` values: a
//! signed count of millionths. Every operation is total. A result that does
//! not fit is pinned to the nearest end of the range, and a quotient or a
//! product that is not a whole number of millionths is rounded toward zero.

use vstd::prelude::*;

verus! {

/// Raw units in one whole: a `Fixed` counts millionths.
pub const SCALE: i64 = 1_000_000;

/// Raw count of one half.
pub const HALF: i64 = 500_000;

/// Raw count of two.
pub const TWO: i64 = 2_000_000;

/// Raw count of minus two.
pub const MINUS_TWO: i64 = -2_000_000;

/// A signed fixed-point number with six decimal places.
///
/// The number stands for `raw / SCALE`; its view is the raw count as an `int`.
#[derive(Clone, Copy, Debug, PartialEq, Eq, Structural)]
pub struct Fixed {
    pub raw: i64,
}

impl View for Fixed {
    type V = int;

    open spec fn view(&self) -> int {
        self.raw as int
    }
}

/// The raw value nearest to `v` that an `i64` can hold.
pub open spec fn clamp(v: int) -> int {
    if v < i64::MIN as int {
        i64::MIN as int
    } else if v > i64::MAX as int {
        i64::MAX as int
    } else {
        v
    }
}

/// The quotient of `n` by `d`, rounded toward zero (`d` is not zero): the
/// quotient of the magnitudes, with the sign of the exact quotient.
pub open spec fn div_toward_zero(n: int, d: int) -> int
    recommends
        d != 0,
{
    let q = (if n < 0 { -n } else { n }) / (if d < 0 { -d } else { d });
    if (n < 0) != (d < 0) {
        -q
    } else {
        q
    }
}

/// Pins a wide intermediate value to the range of a `Fixed`.
fn saturate(v: i128) -> (r: Fixed)
    ensures
        r == Fixed::saturated(v as int),
{
    if v < i64::MIN as i128 {
        Fixed { raw: i64::MIN }
    } else if v > i64::MAX as i128 {
        Fixed { raw: i64::MAX }
    } else {
        Fixed { raw: v as i64 }
    }
}

/// Divides two wide intermediate values, rounding toward zero.
fn divide(n: i128, d: i128) -> (q: i128)
    requires
        d != 0,
        i128::MIN < n,
        i128::MIN < d,
    ensures
        q == div_toward_zero(n as int, d as int),
{
    let n_abs: i128 = if n < 0 { -n } else { n };
    let d_abs: i128 = if d < 0 { -d } else { d };
    let q_abs: i128 = n_abs / d_abs;
    if (n < 0) != (d < 0) {
        -q_abs
    } else {
        q_abs
    }
}

impl Fixed {
    /// The number whose raw count is `v`, pinned to the representable range.
    pub open spec fn saturated(v: int) -> Fixed {
        Fixed { raw: clamp(v) as i64 }
    }

    /// The whole number `n`, saturated.
    pub open spec fn spec_from_int(n: int) -> Fixed {
        Fixed::saturated(n * SCALE)
    }

    /// The saturated sum.
    pub open spec fn spec_add(self, rhs: Fixed) -> Fixed {
        Fixed::saturated(self@ + rhs@)
    }

    /// The saturated difference.
    pub open spec fn spec_sub(self, rhs: Fixed) -> Fixed {
        Fixed::saturated(self@ - rhs@)
    }

    /// The product, rounded toward zero to a whole number of millionths and
    /// saturated.
    pub open spec fn spec_mul(self, rhs: Fixed) -> Fixed {
        Fixed::saturated(div_toward_zero(self@ * rhs@, SCALE as int))
    }

    /// The quotient, rounded toward zero to a whole number of millionths and
    /// saturated. Dividing by zero gives the end of the range on the side of
    /// the dividend's sign, and zero for a zero dividend.
    pub open spec fn spec_div(self, rhs: Fixed) -> Fixed {
        if rhs@ != 0 {
            Fixed::saturated(div_toward_zero(self@ * SCALE, rhs@))
        } else if self@ > 0 {
            Fixed { raw: i64::MAX }
        } else if self@ < 0 {
            Fixed { raw: i64::MIN }
        } else {
            Fixed { raw: 0 }
        }
    }

    /// Wraps a raw count of millionths.
    pub fn from_raw(raw: i64) -> (r: Fixed)
        ensures
            r.raw == raw,
    {
        Fixed { raw }
    }

    /// The whole number `n`, pinned to the range if it is too large.
    pub fn from_int(n: i64) -> (r: Fixed)
        ensures
            r == Fixed::spec_from_int(n as int),
    {
        let scale: i128 = SCALE as i128;
        saturate(n as i128 * scale)
    }

    /// Adds, pinning the sum to the range.
    pub fn saturating_add(self, rhs: Fixed) -> (r: Fixed)
        ensures
            r == self.spec_add(rhs),
    {
        saturate(self.raw as i128 + rhs.raw as i128)
    }

    /// Subtracts, pinning the difference to the range.
    pub fn saturating_sub(self, rhs: Fixed) -> (r: Fixed)
        ensures
            r == self.spec_sub(rhs),
    {
        saturate(self.raw as i128 - rhs.raw as i128)
    }

    /// Multiplies, rounding toward zero and pinning the product to the range.
    pub fn saturating_mul(self, rhs: Fixed) -> (r: Fixed)
        ensures
            r == self.spec_mul(rhs),
    {
        let a: i128 = self.raw as i128;
        let b: i128 = rhs.raw as i128;
        assert(-0x4000_0000_0000_0000_0000_0000_0000_0000 <= a * b
            <= 0x4000_0000_0000_0000_0000_0000_0000_0000) by (nonlinear_arith)
            requires
                -0x8000_0000_0000_0000 <= a <= 0x8000_0000_0000_0000,
                -0x8000_0000_0000_0000 <= b <= 0x8000_0000_0000_0000,
        ;
        saturate(divide(a * b, SCALE as i128))
    }

    /// Divides, rounding toward zero and pinning the quotient to the range.
    /// A zero divisor gives the end of the range on the dividend's side.
    pub fn saturating_div(self, rhs: Fixed) -> (r: Fixed)
        ensures
            r == self.spec_div(rhs),
    {
        if rhs.raw != 0 {
            let scale: i128 = SCALE as i128;
            saturate(divide(self.raw as i128 * scale, rhs.raw as i128))
        } else if self.raw > 0 {
            Fixed { raw: i64::MAX }
        } else if self.raw < 0 {
            Fixed { raw: i64::MIN }
        } else {
            Fixed { raw: 0 }
        }
    }
}

} // verus!
