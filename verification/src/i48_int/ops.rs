//! The arithmetic operators on [`i48`].
//!
//! An operator is for operands whose exact result is defined and fits in 48 bits, and
//! gives that result. Where a result may not fit, the caller says what shall happen:
//! `checked_add` and its kin give nothing then, `wrapping_add` and its kin wrap. An
//! operator never aborts; on operands that it is not for, it does what the wrapping
//! form does.
use super::arith::trunc_div;
use super::arith::trunc_rem;
use super::i48;
use super::in_range;
use super::lemma_wrap;
use super::MIN;
use core::ops::Add;
use core::ops::AddAssign;
use core::ops::Div;
use core::ops::DivAssign;
use core::ops::Mul;
use core::ops::MulAssign;
use core::ops::Neg;
use core::ops::Not;
use core::ops::Rem;
use core::ops::RemAssign;
use core::ops::Sub;
use core::ops::SubAssign;
use vstd::prelude::*;
use vstd::std_specs::ops::AddSpecImpl;
use vstd::std_specs::ops::DivSpecImpl;
use vstd::std_specs::ops::MulSpecImpl;
use vstd::std_specs::ops::NegSpecImpl;
use vstd::std_specs::ops::NotSpecImpl;
use vstd::std_specs::ops::RemSpecImpl;
use vstd::std_specs::ops::SubSpecImpl;

verus! {

impl AddSpecImpl for i48 {
    open spec fn obeys_add_spec() -> bool {
        true
    }

    open spec fn add_req(self, rhs: i48) -> bool {
        in_range(self@ + rhs@)
    }

    open spec fn add_spec(self, rhs: i48) -> i48 {
        i48::spec_new(self@ + rhs@)
    }
}

impl Add for i48 {
    type Output = i48;

    /// The sum, for operands whose sum fits in 48 bits.
    fn add(self, rhs: i48) -> (r: i48)
        ensures
            r@ == self@ + rhs@,
    {
        proof {
            lemma_wrap(self@ + rhs@);
        }
        self.wrapping_add(rhs)
    }
}

impl AddSpecImpl<&i48> for i48 {
    open spec fn obeys_add_spec() -> bool {
        true
    }

    open spec fn add_req(self, rhs: &i48) -> bool {
        in_range(self@ + rhs@)
    }

    open spec fn add_spec(self, rhs: &i48) -> i48 {
        i48::spec_new(self@ + rhs@)
    }
}

impl Add<&i48> for i48 {
    type Output = i48;

    /// The sum with a borrowed right operand.
    fn add(self, rhs: &i48) -> (r: i48)
        ensures
            r@ == self@ + rhs@,
    {
        self + *rhs
    }
}

impl AddAssign for i48 {
    /// Replaces `self` by the sum.
    fn add_assign(&mut self, rhs: i48)
        requires
            in_range(old(self)@ + rhs@),
        ensures
            final(self)@ == old(self)@ + rhs@,
    {
        *self = (*self) + rhs
    }
}

impl AddAssign<&i48> for i48 {
    /// Replaces `self` by the sum with a borrowed right operand.
    fn add_assign(&mut self, rhs: &i48)
        requires
            in_range(old(self)@ + rhs@),
        ensures
            final(self)@ == old(self)@ + rhs@,
    {
        *self = (*self) + *rhs
    }
}

impl SubSpecImpl for i48 {
    open spec fn obeys_sub_spec() -> bool {
        true
    }

    open spec fn sub_req(self, rhs: i48) -> bool {
        in_range(self@ - rhs@)
    }

    open spec fn sub_spec(self, rhs: i48) -> i48 {
        i48::spec_new(self@ - rhs@)
    }
}

impl Sub for i48 {
    type Output = i48;

    /// The difference, for operands whose difference fits in 48 bits.
    fn sub(self, rhs: i48) -> (r: i48)
        ensures
            r@ == self@ - rhs@,
    {
        proof {
            lemma_wrap(self@ - rhs@);
        }
        self.wrapping_sub(rhs)
    }
}

impl SubSpecImpl<&i48> for i48 {
    open spec fn obeys_sub_spec() -> bool {
        true
    }

    open spec fn sub_req(self, rhs: &i48) -> bool {
        in_range(self@ - rhs@)
    }

    open spec fn sub_spec(self, rhs: &i48) -> i48 {
        i48::spec_new(self@ - rhs@)
    }
}

impl Sub<&i48> for i48 {
    type Output = i48;

    /// The difference with a borrowed right operand.
    fn sub(self, rhs: &i48) -> (r: i48)
        ensures
            r@ == self@ - rhs@,
    {
        self - *rhs
    }
}

impl SubAssign for i48 {
    /// Replaces `self` by the difference.
    fn sub_assign(&mut self, rhs: i48)
        requires
            in_range(old(self)@ - rhs@),
        ensures
            final(self)@ == old(self)@ - rhs@,
    {
        *self = (*self) - rhs
    }
}

impl SubAssign<&i48> for i48 {
    /// Replaces `self` by the difference with a borrowed right operand.
    fn sub_assign(&mut self, rhs: &i48)
        requires
            in_range(old(self)@ - rhs@),
        ensures
            final(self)@ == old(self)@ - rhs@,
    {
        *self = (*self) - *rhs
    }
}

impl MulSpecImpl for i48 {
    open spec fn obeys_mul_spec() -> bool {
        true
    }

    open spec fn mul_req(self, rhs: i48) -> bool {
        in_range(self@ * rhs@)
    }

    open spec fn mul_spec(self, rhs: i48) -> i48 {
        i48::spec_new(self@ * rhs@)
    }
}

impl Mul for i48 {
    type Output = i48;

    /// The product, for operands whose product fits in 48 bits.
    fn mul(self, rhs: i48) -> (r: i48)
        ensures
            r@ == self@ * rhs@,
    {
        proof {
            lemma_wrap(self@ * rhs@);
        }
        self.wrapping_mul(rhs)
    }
}

impl MulSpecImpl<&i48> for i48 {
    open spec fn obeys_mul_spec() -> bool {
        true
    }

    open spec fn mul_req(self, rhs: &i48) -> bool {
        in_range(self@ * rhs@)
    }

    open spec fn mul_spec(self, rhs: &i48) -> i48 {
        i48::spec_new(self@ * rhs@)
    }
}

impl Mul<&i48> for i48 {
    type Output = i48;

    /// The product with a borrowed right operand.
    fn mul(self, rhs: &i48) -> (r: i48)
        ensures
            r@ == self@ * rhs@,
    {
        self * *rhs
    }
}

impl MulAssign for i48 {
    /// Replaces `self` by the product.
    fn mul_assign(&mut self, rhs: i48)
        requires
            in_range(old(self)@ * rhs@),
        ensures
            final(self)@ == old(self)@ * rhs@,
    {
        *self = (*self) * rhs
    }
}

impl MulAssign<&i48> for i48 {
    /// Replaces `self` by the product with a borrowed right operand.
    fn mul_assign(&mut self, rhs: &i48)
        requires
            in_range(old(self)@ * rhs@),
        ensures
            final(self)@ == old(self)@ * rhs@,
    {
        *self = (*self) * *rhs
    }
}

impl DivSpecImpl for i48 {
    open spec fn obeys_div_spec() -> bool {
        true
    }

    open spec fn div_req(self, rhs: i48) -> bool {
        rhs@ != 0 && in_range(trunc_div(self@, rhs@))
    }

    open spec fn div_spec(self, rhs: i48) -> i48 {
        i48::spec_new(trunc_div(self@, rhs@))
    }
}

impl Div for i48 {
    type Output = i48;

    /// The quotient rounded toward zero, for a divisor that is not zero and a quotient that
    /// fits (`MIN / -1` does not).
    fn div(self, rhs: i48) -> (r: i48)
        ensures
            r@ == trunc_div(self@, rhs@),
    {
        proof {
            lemma_wrap(trunc_div(self@, rhs@));
        }
        self.wrapping_div(rhs)
    }
}

impl DivSpecImpl<&i48> for i48 {
    open spec fn obeys_div_spec() -> bool {
        true
    }

    open spec fn div_req(self, rhs: &i48) -> bool {
        rhs@ != 0 && in_range(trunc_div(self@, rhs@))
    }

    open spec fn div_spec(self, rhs: &i48) -> i48 {
        i48::spec_new(trunc_div(self@, rhs@))
    }
}

impl Div<&i48> for i48 {
    type Output = i48;

    /// The quotient with a borrowed right operand.
    fn div(self, rhs: &i48) -> (r: i48)
        ensures
            r@ == trunc_div(self@, rhs@),
    {
        self / *rhs
    }
}

impl DivAssign for i48 {
    /// Replaces `self` by the quotient.
    fn div_assign(&mut self, rhs: i48)
        requires
            rhs@ != 0 && in_range(trunc_div(old(self)@, rhs@)),
        ensures
            final(self)@ == trunc_div(old(self)@, rhs@),
    {
        *self = (*self) / rhs
    }
}

impl DivAssign<&i48> for i48 {
    /// Replaces `self` by the quotient with a borrowed right operand.
    fn div_assign(&mut self, rhs: &i48)
        requires
            rhs@ != 0 && in_range(trunc_div(old(self)@, rhs@)),
        ensures
            final(self)@ == trunc_div(old(self)@, rhs@),
    {
        *self = (*self) / *rhs
    }
}

impl RemSpecImpl for i48 {
    open spec fn obeys_rem_spec() -> bool {
        true
    }

    open spec fn rem_req(self, rhs: i48) -> bool {
        rhs@ != 0
    }

    open spec fn rem_spec(self, rhs: i48) -> i48 {
        i48::spec_new(trunc_rem(self@, rhs@))
    }
}

impl Rem for i48 {
    type Output = i48;

    /// The remainder of the division rounded toward zero, for a divisor that is not zero.
    fn rem(self, rhs: i48) -> (r: i48)
        ensures
            r@ == trunc_rem(self@, rhs@),
    {
        proof {
            super::arith::lemma_trunc_div_rem(self@, rhs@);
            lemma_wrap(trunc_rem(self@, rhs@));
        }
        self.wrapping_rem(rhs)
    }
}

impl RemSpecImpl<&i48> for i48 {
    open spec fn obeys_rem_spec() -> bool {
        true
    }

    open spec fn rem_req(self, rhs: &i48) -> bool {
        rhs@ != 0
    }

    open spec fn rem_spec(self, rhs: &i48) -> i48 {
        i48::spec_new(trunc_rem(self@, rhs@))
    }
}

impl Rem<&i48> for i48 {
    type Output = i48;

    /// The remainder with a borrowed right operand.
    fn rem(self, rhs: &i48) -> (r: i48)
        ensures
            r@ == trunc_rem(self@, rhs@),
    {
        self % *rhs
    }
}

impl RemAssign for i48 {
    /// Replaces `self` by the remainder.
    fn rem_assign(&mut self, rhs: i48)
        requires
            rhs@ != 0,
        ensures
            final(self)@ == trunc_rem(old(self)@, rhs@),
    {
        *self = (*self) % rhs
    }
}

impl RemAssign<&i48> for i48 {
    /// Replaces `self` by the remainder with a borrowed right operand.
    fn rem_assign(&mut self, rhs: &i48)
        requires
            rhs@ != 0,
        ensures
            final(self)@ == trunc_rem(old(self)@, rhs@),
    {
        *self = (*self) % *rhs
    }
}

impl NegSpecImpl for i48 {
    open spec fn obeys_neg_spec() -> bool {
        true
    }

    open spec fn neg_req(self) -> bool {
        self@ != MIN
    }

    open spec fn neg_spec(self) -> i48 {
        i48::spec_new(-self@)
    }
}

impl Neg for i48 {
    type Output = i48;

    /// The negation, for any value but `MIN`.
    fn neg(self) -> (r: i48)
        ensures
            r@ == -self@,
    {
        proof {
            use_type_invariant(&self);
            self.lemma_view();
            lemma_wrap(-self@);
        }
        self.wrapping_neg()
    }
}

impl NotSpecImpl for i48 {
    open spec fn obeys_not_spec() -> bool {
        true
    }

    open spec fn not_req(self) -> bool {
        true
    }

    open spec fn not_spec(self) -> i48 {
        i48::spec_new(-self@ - 1)
    }
}

/// Complementing a 48-bit pattern gives, in the low 48 bits, the pattern of the
/// integer `-v - 1`.
proof fn lemma_complement_bits(x: u64)
    requires
        x <= super::MASK,
    ensures
        super::pattern((!x) as int) == super::MASK - x,
{
    assert(x <= 0x0000_FFFF_FFFF_FFFFu64 ==> ((!x) as int) % 0x1_0000_0000_0000
        == 0x0000_FFFF_FFFF_FFFFu64 - x) by (bit_vector);
}

impl Not for i48 {
    type Output = i48;

    /// The bitwise complement of the 48-bit pattern, which is `-self - 1`.
    fn not(self) -> (r: i48)
        ensures
            r@ == -self@ - 1,
    {
        let bits = self.to_bits();
        proof {
            use_type_invariant(&self);
            self.lemma_view();
            lemma_complement_bits(bits);
            lemma_wrap(-self@ - 1);
            if self@ >= 0 {
                vstd::arithmetic::div_mod::lemma_mod_multiples_vanish(
                    1,
                    -self@ - 1,
                    0x1_0000_0000_0000,
                );
            }
        }
        i48::from_bits_wrapping(!bits)
    }
}

} // verus!
