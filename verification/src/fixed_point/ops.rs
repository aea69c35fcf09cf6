//! The arithmetic operators on [`Fract`] and [`FixedPoint`].
//!
//! Adding and subtracting numbers of one scale is adding and subtracting their counts of
//! steps. On `FixedPoint` every operator saturates: a result beyond what the word holds
//! is the nearest number that it does hold.
use super::saturate;
use super::FixedPoint;
use super::Fract;
use super::FRACTIONAL_SCALE;
use crate::i48_int::arith::lemma_native_div_rem;
use crate::i48_int::arith::lemma_trunc_div_rem;
use crate::i48_int::arith::trunc_div;
use core::ops::Add;
use core::ops::AddAssign;
use core::ops::Div;
use core::ops::DivAssign;
use core::ops::Mul;
use core::ops::MulAssign;
use core::ops::Sub;
use core::ops::SubAssign;
use vstd::prelude::*;
use vstd::std_specs::convert::FromSpecImpl;
use vstd::std_specs::ops::AddSpecImpl;
use vstd::std_specs::ops::DivSpecImpl;
use vstd::std_specs::ops::MulSpecImpl;
use vstd::std_specs::ops::SubSpecImpl;

verus! {

impl AddSpecImpl for Fract {
    open spec fn obeys_add_spec() -> bool {
        true
    }

    open spec fn add_req(self, rhs: Fract) -> bool {
        true
    }

    open spec fn add_spec(self, rhs: Fract) -> FixedPoint {
        FixedPoint((self@ + rhs@) as i64)
    }
}

impl Add for Fract {
    type Output = FixedPoint;

    /// The sum, which may reach one and so is a `FixedPoint`.
    fn add(self, rhs: Fract) -> (r: FixedPoint)
        ensures
            r@ == self@ + rhs@,
    {
        FixedPoint(self.0 as i64 + rhs.0 as i64)
    }
}

impl SubSpecImpl for Fract {
    open spec fn obeys_sub_spec() -> bool {
        true
    }

    open spec fn sub_req(self, rhs: Fract) -> bool {
        true
    }

    open spec fn sub_spec(self, rhs: Fract) -> FixedPoint {
        FixedPoint((self@ - rhs@) as i64)
    }
}

impl Sub for Fract {
    type Output = FixedPoint;

    /// The difference, which may be negative and so is a `FixedPoint`.
    fn sub(self, rhs: Fract) -> (r: FixedPoint)
        ensures
            r@ == self@ - rhs@,
    {
        FixedPoint(self.0 as i64 - rhs.0 as i64)
    }
}

impl MulSpecImpl for Fract {
    open spec fn obeys_mul_spec() -> bool {
        true
    }

    open spec fn mul_req(self, rhs: Fract) -> bool {
        true
    }

    open spec fn mul_spec(self, rhs: Fract) -> Fract {
        Fract((self@ * rhs@ / 0x1_0000) as u16)
    }
}

impl Mul for Fract {
    type Output = Fract;

    /// The product, rounded down to a whole number of steps. The product of two
    /// magnitudes below one is below one.
    fn mul(self, rhs: Fract) -> (r: Fract)
        ensures
            r@ == self@ * rhs@ / 0x1_0000,
    {
        let a = self.0 as u32;
        let b = rhs.0 as u32;
        assert(0 <= a * b <= 0xFFFF * 0xFFFF) by (nonlinear_arith)
            requires
                0 <= a <= 0xFFFF,
                0 <= b <= 0xFFFF,
        ;
        let result = ((a * b) / FRACTIONAL_SCALE) as u16;
        Fract(result)
    }
}

impl DivSpecImpl for Fract {
    open spec fn obeys_div_spec() -> bool {
        true
    }

    open spec fn div_req(self, rhs: Fract) -> bool {
        rhs@ != 0
    }

    open spec fn div_spec(self, rhs: Fract) -> FixedPoint {
        FixedPoint(((self@ / rhs@) * 0x1_0000) as i64)
    }
}

impl Div for Fract {
    type Output = FixedPoint;

    /// The quotient of the two counts rounded down to a whole number, as a
    /// `FixedPoint`: a quotient of two fractions may exceed one. What the division
    /// leaves over is dropped before the scale is put back, so the result is always a
    /// whole number.
    fn div(self, rhs: Fract) -> (r: FixedPoint)
        ensures
            r@ == (self@ / rhs@) * 0x1_0000,
    {
        proof {
            vstd::arithmetic::div_mod::lemma_div_nonincreasing(self@, rhs@);
            vstd::arithmetic::div_mod::lemma_div_pos_is_pos(self@, rhs@);
        }
        let result = (self.0 / rhs.0) as i64 * FRACTIONAL_SCALE as i64;
        FixedPoint(result)
    }
}

impl AddSpecImpl for FixedPoint {
    open spec fn obeys_add_spec() -> bool {
        true
    }

    open spec fn add_req(self, rhs: FixedPoint) -> bool {
        true
    }

    open spec fn add_spec(self, rhs: FixedPoint) -> FixedPoint {
        FixedPoint(saturate(self@ + rhs@) as i64)
    }
}

impl Add for FixedPoint {
    type Output = FixedPoint;

    /// The sum, saturated.
    fn add(self, rhs: FixedPoint) -> (r: FixedPoint)
        ensures
            r@ == saturate(self@ + rhs@),
    {
        match self.0.checked_add(rhs.0) {
            Some(sum) => FixedPoint(sum),
            None => if rhs.0 < 0 {
                FixedPoint::min_value()
            } else {
                FixedPoint::max_value()
            },
        }
    }
}

impl AddAssign for FixedPoint {
    /// Replaces `self` by the saturated sum.
    fn add_assign(&mut self, rhs: FixedPoint)
        ensures
            final(self)@ == saturate(old(self)@ + rhs@),
    {
        *self = (*self) + rhs
    }
}

impl SubSpecImpl for FixedPoint {
    open spec fn obeys_sub_spec() -> bool {
        true
    }

    open spec fn sub_req(self, rhs: FixedPoint) -> bool {
        true
    }

    open spec fn sub_spec(self, rhs: FixedPoint) -> FixedPoint {
        FixedPoint(saturate(self@ - rhs@) as i64)
    }
}

impl Sub for FixedPoint {
    type Output = FixedPoint;

    /// The difference, saturated.
    fn sub(self, rhs: FixedPoint) -> (r: FixedPoint)
        ensures
            r@ == saturate(self@ - rhs@),
    {
        match self.0.checked_sub(rhs.0) {
            Some(difference) => FixedPoint(difference),
            None => if rhs.0 > 0 {
                FixedPoint::min_value()
            } else {
                FixedPoint::max_value()
            },
        }
    }
}

impl SubAssign for FixedPoint {
    /// Replaces `self` by the saturated difference.
    fn sub_assign(&mut self, rhs: FixedPoint)
        ensures
            final(self)@ == saturate(old(self)@ - rhs@),
    {
        *self = (*self) - rhs
    }
}

impl MulSpecImpl for FixedPoint {
    open spec fn obeys_mul_spec() -> bool {
        true
    }

    open spec fn mul_req(self, rhs: FixedPoint) -> bool {
        true
    }

    open spec fn mul_spec(self, rhs: FixedPoint) -> FixedPoint {
        FixedPoint(saturate(trunc_div(self@ * rhs@, 0x1_0000)) as i64)
    }
}

impl Mul for FixedPoint {
    type Output = FixedPoint;

    /// The product: the product of the two counts, which is in steps of `1/65536²`,
    /// brought back to steps of `1/65536` by a division rounded toward zero, and
    /// saturated. The product of the counts is formed in 128 bits, where it is exact.
    fn mul(self, rhs: FixedPoint) -> (r: FixedPoint)
        ensures
            r@ == saturate(trunc_div(self@ * rhs@, 0x1_0000)),
    {
        let x = self.0 as i128;
        let y = rhs.0 as i128;
        assert(-0x4000_0000_0000_0000_0000_0000_0000_0000 <= x * y
            <= 0x4000_0000_0000_0000_0000_0000_0000_0000) by (nonlinear_arith)
            requires
                -0x8000_0000_0000_0000 <= x <= 0x8000_0000_0000_0000,
                -0x8000_0000_0000_0000 <= y <= 0x8000_0000_0000_0000,
        ;
        proof {
            lemma_native_div_rem(x * y, 0x1_0000);
        }
        let result = (x * y) / FRACTIONAL_SCALE as i128;
        if result < i64::MIN as i128 {
            return FixedPoint::min_value();
        }
        if result > i64::MAX as i128 {
            return FixedPoint::max_value();
        }
        FixedPoint(result as i64)
    }
}

impl MulAssign for FixedPoint {
    /// Replaces `self` by the saturated product.
    fn mul_assign(&mut self, rhs: FixedPoint)
        ensures
            final(self)@ == saturate(trunc_div(old(self)@ * rhs@, 0x1_0000)),
    {
        *self = (*self) * rhs
    }
}

impl DivSpecImpl for FixedPoint {
    open spec fn obeys_div_spec() -> bool {
        true
    }

    open spec fn div_req(self, rhs: FixedPoint) -> bool {
        rhs@ != 0 && !(self@ == i64::MIN && rhs@ == -1)
    }

    open spec fn div_spec(self, rhs: FixedPoint) -> FixedPoint {
        FixedPoint(saturate(trunc_div(self@, rhs@) * 0x1_0000) as i64)
    }
}

impl Div for FixedPoint {
    type Output = FixedPoint;

    /// The quotient of the two counts rounded toward zero, as a whole number,
    /// saturated. What the division of the counts leaves over is dropped before the
    /// scale is put back: the result has no fractional part, and is exact only where
    /// the true quotient is a whole number.
    ///
    /// The divisor is not zero, and the smallest number is not divided by the count
    /// `-1`.
    fn div(self, rhs: FixedPoint) -> (r: FixedPoint)
        ensures
            r@ == saturate(trunc_div(self@, rhs@) * 0x1_0000),
    {
        let x = self.0;
        let y = rhs.0;
        proof {
            lemma_native_div_rem(x as int, y as int);
            lemma_trunc_div_rem(x as int, y as int);
            let q = trunc_div(x as int, y as int);
            if q == 0x8000_0000_0000_0000 {
                assert(y * q == y * 0x8000_0000_0000_0000);
                assert(false);
            }
        }
        let quotient = x / y;
        let result = match quotient.checked_mul(FRACTIONAL_SCALE as i64) {
            Some(scaled) => scaled,
            None => if quotient < 0 {
                i64::MIN
            } else {
                i64::MAX
            },
        };
        FixedPoint(result)
    }
}

impl DivAssign for FixedPoint {
    /// Replaces `self` by the quotient.
    fn div_assign(&mut self, rhs: FixedPoint)
        requires
            rhs@ != 0,
            !(old(self)@ == i64::MIN && rhs@ == -1),
        ensures
            final(self)@ == saturate(trunc_div(old(self)@, rhs@) * 0x1_0000),
    {
        *self = (*self) / rhs
    }
}

impl FromSpecImpl<Fract> for FixedPoint {
    open spec fn obeys_from_spec() -> bool {
        true
    }

    open spec fn from_spec(value: Fract) -> FixedPoint {
        FixedPoint(value@ as i64)
    }
}

impl From<Fract> for FixedPoint {
    /// The number below one that `value` stands for.
    fn from(value: Fract) -> (r: FixedPoint)
        ensures
            r@ == value@,
    {
        FixedPoint::from_fract(value)
    }
}

} // verus!
