//! Deterministic numbers and coordinates for a voxel world.
//!
//! Positions that are accumulated frame after frame drift when kept in floating point.
//! This crate keeps them in fixed point instead: [`i48_int::i48`] is a signed 48-bit
//! integer, [`fixed_point::Fract`] a fraction in steps of `1/65536`, and
//! [`fixed_point::FixedPoint`] the two packed into one 64-bit word. [`coords`] builds the
//! world's coordinates on them: the chunk grid with its packed block addresses, and
//! continuous positions.
//!
//! Every value is a plain copyable value, and every function is verified against a
//! contract over the integers that the values stand for.
use crate::fixed_point::saturate;
use crate::fixed_point::FixedPoint;
use crate::fixed_point::Fract;
use crate::i48_int::arith::trunc_div;
use crate::i48_int::i48;
use core::ops::Add;
use core::ops::AddAssign;
use core::ops::Mul;
use core::ops::Sub;
use core::ops::SubAssign;
use vstd::prelude::*;
use vstd::std_specs::ops::AddSpecImpl;
use vstd::std_specs::ops::MulSpecImpl;
use vstd::std_specs::ops::SubSpecImpl;

pub mod coords;
pub mod fixed_point;
pub mod i48_int;
pub mod radix;

verus! {

/// Three 48-bit integers.
#[derive(Clone, Copy, Debug, Hash, PartialEq, Eq, Structural)]
pub struct I48Vec3 {
    pub x: i48,
    pub y: i48,
    pub z: i48,
}

/// Three fractions.
#[derive(Clone, Copy, Debug, PartialEq, Eq, Structural)]
pub struct FractVec3 {
    pub x: Fract,
    pub y: Fract,
    pub z: Fract,
}

impl FractVec3 {
    /// The vector of three zeros.
    pub fn zero() -> (r: Self)
        ensures
            r.x@ == 0,
            r.y@ == 0,
            r.z@ == 0,
    {
        FractVec3 { x: Fract::zero(), y: Fract::zero(), z: Fract::zero() }
    }
}

/// Three fixed-point numbers: a point or a displacement in continuous space.
#[derive(Clone, Copy, Debug, PartialEq, Eq, Structural)]
pub struct FixedPointVec3 {
    pub x: FixedPoint,
    pub y: FixedPoint,
    pub z: FixedPoint,
}

impl View for FixedPointVec3 {
    type V = (int, int, int);

    /// The three counts of steps.
    open spec fn view(&self) -> (int, int, int) {
        (self.x@, self.y@, self.z@)
    }
}

impl FixedPointVec3 {
    /// One unit upward.
    pub fn unit_y() -> (r: Self)
        ensures
            r@ == (0int, 0x1_0000int, 0int),
    {
        FixedPointVec3 {
            x: FixedPoint::zero(),
            y: FixedPoint::from_int(i48::new_unchecked(1)),
            z: FixedPoint::zero(),
        }
    }

    /// The vector of three zeros.
    pub fn zero() -> (r: Self)
        ensures
            r@ == (0int, 0int, 0int),
    {
        FixedPointVec3 { x: FixedPoint::zero(), y: FixedPoint::zero(), z: FixedPoint::zero() }
    }

    /// The vector with the given components.
    pub fn new(x: FixedPoint, y: FixedPoint, z: FixedPoint) -> (r: Self)
        ensures
            r.x == x,
            r.y == y,
            r.z == z,
    {
        Self { x, y, z }
    }
}

impl MulSpecImpl<FixedPoint> for FixedPointVec3 {
    open spec fn obeys_mul_spec() -> bool {
        true
    }

    open spec fn mul_req(self, rhs: FixedPoint) -> bool {
        true
    }

    open spec fn mul_spec(self, rhs: FixedPoint) -> FixedPointVec3 {
        FixedPointVec3 {
            x: FixedPoint(saturate(trunc_div(self.x@ * rhs@, 0x1_0000)) as i64),
            y: FixedPoint(saturate(trunc_div(self.y@ * rhs@, 0x1_0000)) as i64),
            z: FixedPoint(saturate(trunc_div(self.z@ * rhs@, 0x1_0000)) as i64),
        }
    }
}

impl Mul<FixedPoint> for FixedPointVec3 {
    type Output = FixedPointVec3;

    /// The vector scaled by `rhs`: each component times `rhs`, saturated.
    fn mul(self, rhs: FixedPoint) -> (r: FixedPointVec3)
        ensures
            r.x@ == saturate(trunc_div(self.x@ * rhs@, 0x1_0000)),
            r.y@ == saturate(trunc_div(self.y@ * rhs@, 0x1_0000)),
            r.z@ == saturate(trunc_div(self.z@ * rhs@, 0x1_0000)),
    {
        Self { x: self.x * rhs, y: self.y * rhs, z: self.z * rhs }
    }
}

impl AddSpecImpl for FixedPointVec3 {
    open spec fn obeys_add_spec() -> bool {
        true
    }

    open spec fn add_req(self, rhs: FixedPointVec3) -> bool {
        true
    }

    open spec fn add_spec(self, rhs: FixedPointVec3) -> FixedPointVec3 {
        FixedPointVec3 {
            x: FixedPoint(saturate(self.x@ + rhs.x@) as i64),
            y: FixedPoint(saturate(self.y@ + rhs.y@) as i64),
            z: FixedPoint(saturate(self.z@ + rhs.z@) as i64),
        }
    }
}

impl Add for FixedPointVec3 {
    type Output = FixedPointVec3;

    /// The sum, component by component, each saturated.
    fn add(self, rhs: FixedPointVec3) -> (r: FixedPointVec3)
        ensures
            r.x@ == saturate(self.x@ + rhs.x@),
            r.y@ == saturate(self.y@ + rhs.y@),
            r.z@ == saturate(self.z@ + rhs.z@),
    {
        Self { x: self.x + rhs.x, y: self.y + rhs.y, z: self.z + rhs.z }
    }
}

impl AddAssign for FixedPointVec3 {
    /// Replaces `self` by the sum.
    fn add_assign(&mut self, rhs: FixedPointVec3)
        ensures
            final(self).x@ == saturate(old(self).x@ + rhs.x@),
            final(self).y@ == saturate(old(self).y@ + rhs.y@),
            final(self).z@ == saturate(old(self).z@ + rhs.z@),
    {
        *self = (*self) + rhs
    }
}

impl SubSpecImpl for FixedPointVec3 {
    open spec fn obeys_sub_spec() -> bool {
        true
    }

    open spec fn sub_req(self, rhs: FixedPointVec3) -> bool {
        true
    }

    open spec fn sub_spec(self, rhs: FixedPointVec3) -> FixedPointVec3 {
        FixedPointVec3 {
            x: FixedPoint(saturate(self.x@ - rhs.x@) as i64),
            y: FixedPoint(saturate(self.y@ - rhs.y@) as i64),
            z: FixedPoint(saturate(self.z@ - rhs.z@) as i64),
        }
    }
}

impl Sub for FixedPointVec3 {
    type Output = FixedPointVec3;

    /// The difference, component by component, each saturated.
    fn sub(self, rhs: FixedPointVec3) -> (r: FixedPointVec3)
        ensures
            r.x@ == saturate(self.x@ - rhs.x@),
            r.y@ == saturate(self.y@ - rhs.y@),
            r.z@ == saturate(self.z@ - rhs.z@),
    {
        Self { x: self.x - rhs.x, y: self.y - rhs.y, z: self.z - rhs.z }
    }
}

impl SubAssign for FixedPointVec3 {
    /// Replaces `self` by the difference.
    fn sub_assign(&mut self, rhs: FixedPointVec3)
        ensures
            final(self).x@ == saturate(old(self).x@ - rhs.x@),
            final(self).y@ == saturate(old(self).y@ - rhs.y@),
            final(self).z@ == saturate(old(self).z@ - rhs.z@),
    {
        *self = (*self) - rhs
    }
}

} // verus!
