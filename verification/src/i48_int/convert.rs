//! Conversions into [`i48`] from the primitive integers.
//!
//! The narrower types convert without loss. The wider ones convert where the value fits
//! in 48 bits, and fail with a [`RangeError`] where it does not; nothing is truncated.
use super::i48;
use super::in_range;
use super::MAX;
use super::MIN;
use vstd::prelude::*;
use vstd::std_specs::convert::FromSpecImpl;
use vstd::std_specs::convert::TryFromSpecImpl;

verus! {

/// The value to convert lies outside `[MIN, MAX]`.
#[derive(Clone, Copy, Debug, PartialEq, Eq, Structural)]
pub struct RangeError;

/// What converting the integer `v` gives: the 48-bit integer `v`, or the error where `v`
/// does not fit.
pub open spec fn converted(v: int) -> Result<i48, RangeError> {
    if in_range(v) {
        Ok(i48::spec_new(v))
    } else {
        Err(RangeError)
    }
}

impl FromSpecImpl<i8> for i48 {
    open spec fn obeys_from_spec() -> bool {
        true
    }

    open spec fn from_spec(value: i8) -> i48 {
        i48::spec_new(value as int)
    }
}

impl From<i8> for i48 {
    /// The same integer; every `i8` fits.
    fn from(value: i8) -> (r: i48)
        ensures
            r@ == value,
    {
        i48::new_unchecked(value as i64)
    }
}

impl FromSpecImpl<i16> for i48 {
    open spec fn obeys_from_spec() -> bool {
        true
    }

    open spec fn from_spec(value: i16) -> i48 {
        i48::spec_new(value as int)
    }
}

impl From<i16> for i48 {
    /// The same integer; every `i16` fits.
    fn from(value: i16) -> (r: i48)
        ensures
            r@ == value,
    {
        i48::new_unchecked(value as i64)
    }
}

impl FromSpecImpl<i32> for i48 {
    open spec fn obeys_from_spec() -> bool {
        true
    }

    open spec fn from_spec(value: i32) -> i48 {
        i48::spec_new(value as int)
    }
}

impl From<i32> for i48 {
    /// The same integer; every `i32` fits.
    fn from(value: i32) -> (r: i48)
        ensures
            r@ == value,
    {
        i48::new_unchecked(value as i64)
    }
}

impl FromSpecImpl<u8> for i48 {
    open spec fn obeys_from_spec() -> bool {
        true
    }

    open spec fn from_spec(value: u8) -> i48 {
        i48::spec_new(value as int)
    }
}

impl From<u8> for i48 {
    /// The same integer; every `u8` fits.
    fn from(value: u8) -> (r: i48)
        ensures
            r@ == value,
    {
        i48::from_bits_unchecked(value as u64)
    }
}

impl FromSpecImpl<u16> for i48 {
    open spec fn obeys_from_spec() -> bool {
        true
    }

    open spec fn from_spec(value: u16) -> i48 {
        i48::spec_new(value as int)
    }
}

impl From<u16> for i48 {
    /// The same integer; every `u16` fits.
    fn from(value: u16) -> (r: i48)
        ensures
            r@ == value,
    {
        i48::from_bits_unchecked(value as u64)
    }
}

impl FromSpecImpl<u32> for i48 {
    open spec fn obeys_from_spec() -> bool {
        true
    }

    open spec fn from_spec(value: u32) -> i48 {
        i48::spec_new(value as int)
    }
}

impl From<u32> for i48 {
    /// The same integer; every `u32` fits.
    fn from(value: u32) -> (r: i48)
        ensures
            r@ == value,
    {
        i48::from_bits_unchecked(value as u64)
    }
}

impl TryFromSpecImpl<i64> for i48 {
    open spec fn obeys_try_from_spec() -> bool {
        true
    }

    open spec fn try_from_spec(value: i64) -> Result<i48, RangeError> {
        converted(value as int)
    }
}

impl TryFrom<i64> for i48 {
    type Error = RangeError;

    /// The same integer, if it fits in 48 bits.
    fn try_from(value: i64) -> (r: Result<i48, RangeError>)
        ensures
            in_range(value as int) ==> r is Ok && r.unwrap()@ == value,
            !in_range(value as int) ==> r is Err,
    {
        if value > MAX || value < MIN {
            return Err(RangeError);
        }
        Ok(i48::new_unchecked(value))
    }
}

impl TryFromSpecImpl<i128> for i48 {
    open spec fn obeys_try_from_spec() -> bool {
        true
    }

    open spec fn try_from_spec(value: i128) -> Result<i48, RangeError> {
        converted(value as int)
    }
}

impl TryFrom<i128> for i48 {
    type Error = RangeError;

    /// The same integer, if it fits in 48 bits.
    fn try_from(value: i128) -> (r: Result<i48, RangeError>)
        ensures
            in_range(value as int) ==> r is Ok && r.unwrap()@ == value,
            !in_range(value as int) ==> r is Err,
    {
        if value > MAX as i128 || value < MIN as i128 {
            return Err(RangeError);
        }
        Ok(i48::new_unchecked(value as i64))
    }
}

impl TryFromSpecImpl<isize> for i48 {
    open spec fn obeys_try_from_spec() -> bool {
        true
    }

    open spec fn try_from_spec(value: isize) -> Result<i48, RangeError> {
        converted(value as int)
    }
}

impl TryFrom<isize> for i48 {
    type Error = RangeError;

    /// The same integer, if it fits in 48 bits.
    fn try_from(value: isize) -> (r: Result<i48, RangeError>)
        ensures
            in_range(value as int) ==> r is Ok && r.unwrap()@ == value,
            !in_range(value as int) ==> r is Err,
    {
        if value as i128 > MAX as i128 || (value as i128) < MIN as i128 {
            return Err(RangeError);
        }
        Ok(i48::new_unchecked(value as i64))
    }
}

impl TryFromSpecImpl<u64> for i48 {
    open spec fn obeys_try_from_spec() -> bool {
        true
    }

    open spec fn try_from_spec(value: u64) -> Result<i48, RangeError> {
        converted(value as int)
    }
}

impl TryFrom<u64> for i48 {
    type Error = RangeError;

    /// The same integer, if it fits in 48 bits.
    fn try_from(value: u64) -> (r: Result<i48, RangeError>)
        ensures
            in_range(value as int) ==> r is Ok && r.unwrap()@ == value,
            !in_range(value as int) ==> r is Err,
    {
        if value > MAX as u64 {
            return Err(RangeError);
        }
        Ok(i48::from_bits_unchecked(value))
    }
}

impl TryFromSpecImpl<u128> for i48 {
    open spec fn obeys_try_from_spec() -> bool {
        true
    }

    open spec fn try_from_spec(value: u128) -> Result<i48, RangeError> {
        converted(value as int)
    }
}

impl TryFrom<u128> for i48 {
    type Error = RangeError;

    /// The same integer, if it fits in 48 bits.
    fn try_from(value: u128) -> (r: Result<i48, RangeError>)
        ensures
            in_range(value as int) ==> r is Ok && r.unwrap()@ == value,
            !in_range(value as int) ==> r is Err,
    {
        if value > MAX as u128 {
            return Err(RangeError);
        }
        Ok(i48::from_bits_unchecked(value as u64))
    }
}

impl TryFromSpecImpl<usize> for i48 {
    open spec fn obeys_try_from_spec() -> bool {
        true
    }

    open spec fn try_from_spec(value: usize) -> Result<i48, RangeError> {
        converted(value as int)
    }
}

impl TryFrom<usize> for i48 {
    type Error = RangeError;

    /// The same integer, if it fits in 48 bits.
    fn try_from(value: usize) -> (r: Result<i48, RangeError>)
        ensures
            in_range(value as int) ==> r is Ok && r.unwrap()@ == value,
            !in_range(value as int) ==> r is Err,
    {
        if value as u128 > MAX as u128 {
            return Err(RangeError);
        }
        Ok(i48::from_bits_unchecked(value as u64))
    }
}

} // verus!
