//! Arithmetic on [`i48`] under a policy that the caller names.
//!
//! What shall happen to a result that does not fit in 48 bits is a choice: to give
//! nothing, or to wrap. Here the choice is an argument, so that it can be made in one
//! place and is seen where the operation is called.
use super::arith::trunc_div;
use super::arith::trunc_rem;
use super::checked;
use super::i48;
use vstd::prelude::*;

verus! {

/// What an operation does with a result that does not fit in 48 bits.
#[derive(Clone, Copy, Debug, PartialEq, Eq, Structural)]
pub enum ArithmeticMode {
    /// The operation gives nothing.
    Checked,
    /// The operation gives the result reduced modulo `2^48`.
    Wrapping,
}

/// What an operation whose exact result is `v` gives under `mode`.
pub open spec fn resolved(v: int, mode: ArithmeticMode) -> Option<i48> {
    match mode {
        ArithmeticMode::Checked => checked(v),
        ArithmeticMode::Wrapping => Some(i48::spec_new(v)),
    }
}

/// Where the exact result fits, both modes give it; where it does not, checking gives
/// nothing and wrapping gives a value all the same.
pub proof fn lemma_resolved(v: int)
    ensures
        super::in_range(v) ==> resolved(v, ArithmeticMode::Checked) == resolved(
            v,
            ArithmeticMode::Wrapping,
        ),
        !super::in_range(v) ==> resolved(v, ArithmeticMode::Checked) is None,
        resolved(v, ArithmeticMode::Wrapping) is Some,
        resolved(v, ArithmeticMode::Wrapping).unwrap()@ == super::wrap(v),
{
    i48::lemma_spec_new(v);
}

impl i48 {
    /// `self + rhs` under `mode`.
    pub fn add_in(self, rhs: Self, mode: ArithmeticMode) -> (r: Option<Self>)
        ensures
            r == resolved(self@ + rhs@, mode),
    {
        match mode {
            ArithmeticMode::Checked => self.checked_add(rhs),
            ArithmeticMode::Wrapping => Some(self.wrapping_add(rhs)),
        }
    }

    /// `self - rhs` under `mode`.
    pub fn sub_in(self, rhs: Self, mode: ArithmeticMode) -> (r: Option<Self>)
        ensures
            r == resolved(self@ - rhs@, mode),
    {
        match mode {
            ArithmeticMode::Checked => self.checked_sub(rhs),
            ArithmeticMode::Wrapping => Some(self.wrapping_sub(rhs)),
        }
    }

    /// `self * rhs` under `mode`.
    pub fn mul_in(self, rhs: Self, mode: ArithmeticMode) -> (r: Option<Self>)
        ensures
            r == resolved(self@ * rhs@, mode),
    {
        match mode {
            ArithmeticMode::Checked => self.checked_mul(rhs),
            ArithmeticMode::Wrapping => Some(self.wrapping_mul(rhs)),
        }
    }

    /// The quotient rounded toward zero under `mode`. There is none by zero, in either
    /// mode.
    pub fn div_in(self, rhs: Self, mode: ArithmeticMode) -> (r: Option<Self>)
        ensures
            r == (if rhs@ == 0 {
                None
            } else {
                resolved(trunc_div(self@, rhs@), mode)
            }),
    {
        match mode {
            ArithmeticMode::Checked => self.checked_div(rhs),
            ArithmeticMode::Wrapping => if rhs.as_i64() == 0 {
                None
            } else {
                Some(self.wrapping_div(rhs))
            },
        }
    }

    /// The remainder of the division rounded toward zero under `mode`. There is none by
    /// zero, in either mode; otherwise it always fits.
    pub fn rem_in(self, rhs: Self, mode: ArithmeticMode) -> (r: Option<Self>)
        ensures
            r == (if rhs@ == 0 {
                None
            } else {
                Some(i48::spec_new(trunc_rem(self@, rhs@)))
            }),
    {
        match mode {
            ArithmeticMode::Checked => self.checked_rem(rhs),
            ArithmeticMode::Wrapping => if rhs.as_i64() == 0 {
                None
            } else {
                Some(self.wrapping_rem(rhs))
            },
        }
    }

    /// The negation under `mode`.
    pub fn neg_in(self, mode: ArithmeticMode) -> (r: Option<Self>)
        ensures
            r == resolved(-self@, mode),
    {
        match mode {
            ArithmeticMode::Checked => self.checked_neg(),
            ArithmeticMode::Wrapping => Some(self.wrapping_neg()),
        }
    }
}

} // verus!
