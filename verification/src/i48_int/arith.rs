//! Checked and wrapping arithmetic on [`i48`].
//!
//! A checked operation gives the exact result, or nothing where that result does not fit
//! in 48 bits or is not defined. A wrapping operation always gives a value: the exact
//! result reduced modulo `2^48`. Division and remainder by zero are not defined; the
//! wrapping forms leave a zero divisor to the caller.
use super::checked;
use super::i48;
use super::lemma_wrap;
use super::pattern;
use super::wrap;
use super::MASK;
use super::MAX;
use vstd::prelude::*;

verus! {

/// The magnitude of `v`.
pub open spec fn abs(v: int) -> int {
    if v < 0 {
        -v
    } else {
        v
    }
}

/// The quotient of `a` by `b` rounded toward zero.
pub open spec fn trunc_div(a: int, b: int) -> int {
    let q = abs(a) / abs(b);
    if (a < 0) == (b < 0) {
        q
    } else {
        -q
    }
}

/// The remainder that goes with `trunc_div`: it has the sign of `a`, and a magnitude
/// below that of `b`.
pub open spec fn trunc_rem(a: int, b: int) -> int {
    let r = abs(a) % abs(b);
    if a < 0 {
        -r
    } else {
        r
    }
}

/// Whether `s` is the integer square root of `v`: the largest integer whose square does
/// not exceed `v`.
pub open spec fn is_isqrt(v: int, s: int) -> bool {
    0 <= s && s * s <= v < (s + 1) * (s + 1)
}

/// A number has at most one integer square root.
pub proof fn lemma_isqrt_unique(v: int, s: int, t: int)
    requires
        is_isqrt(v, s),
        is_isqrt(v, t),
    ensures
        s == t,
{
    if s < t {
        assert((s + 1) * (s + 1) <= t * t) by (nonlinear_arith)
            requires
                0 <= s + 1 <= t,
        ;
    } else if t < s {
        assert((t + 1) * (t + 1) <= s * s) by (nonlinear_arith)
            requires
                0 <= t + 1 <= s,
        ;
    }
}

/// Truncated quotient and remainder make up the dividend, and both stay within the
/// magnitude of what they were computed from.
pub proof fn lemma_trunc_div_rem(a: int, b: int)
    requires
        b != 0,
    ensures
        a == b * trunc_div(a, b) + trunc_rem(a, b),
        abs(trunc_rem(a, b)) < abs(b),
        abs(trunc_div(a, b)) <= abs(a),
        a == 0 ==> trunc_div(a, b) == 0 && trunc_rem(a, b) == 0,
{
    let x = abs(a);
    let d = abs(b);
    let q = x / d;
    let r = x % d;
    vstd::arithmetic::div_mod::lemma_fundamental_div_mod(x, d);
    vstd::arithmetic::div_mod::lemma_mod_pos_bound(x, d);
    vstd::arithmetic::div_mod::lemma_div_pos_is_pos(x, d);
    vstd::arithmetic::div_mod::lemma_div_nonincreasing(x, d);
    if a == 0 {
        vstd::arithmetic::div_mod::lemma_div_of0(d);
        vstd::arithmetic::div_mod::lemma_small_mod(0, d as nat);
    }
    let tq = trunc_div(a, b);
    let tr = trunc_rem(a, b);
    assert(a == b * tq + tr) by (nonlinear_arith)
        requires
            x == d * q + r,
            x == a || x == -a,
            a < 0 <==> x != a,
            d == b || d == -b,
            b < 0 <==> d != b,
            b != 0,
            tq == (if (a < 0) == (b < 0) {
                q
            } else {
                -q
            }),
            tr == (if a < 0 {
                -r
            } else {
                r
            }),
    ;
}

/// Euclidean quotient and remainder, for a divisor of either sign: the remainder is never
/// negative and lies below the divisor's magnitude, and the quotient is no larger in
/// magnitude than the dividend.
pub proof fn lemma_euclid_div_rem(a: int, b: int)
    requires
        b != 0,
    ensures
        a == b * (a / b) + a % b,
        0 <= a % b < abs(b),
        abs(a / b) <= abs(a),
{
    assert(a == b * (a / b) + a % b && 0 <= a % b < abs(b) && abs(a / b) <= abs(a))
        by (nonlinear_arith)
        requires
            b != 0,
    ;
}

/// Assumed of `i64::div_euclid` of the standard library, not proved: it gives the
/// quotient of Euclidean division, the integer `q` with `lhs == q * rhs + r` and
/// `0 <= r < |rhs|`. It panics on a zero divisor and on `i64::MIN / -1`, which the
/// precondition leaves out.
pub assume_specification[ i64::div_euclid ](lhs: i64, rhs: i64) -> (q: i64)
    requires
        rhs != 0,
        !(lhs == i64::MIN && rhs == -1),
    ensures
        q == (lhs as int) / (rhs as int),
;

/// Assumed of `i64::rem_euclid` of the standard library, not proved: it gives the
/// least non-negative remainder of `lhs` modulo `rhs`. It panics on a zero divisor and
/// on `i64::MIN` with `-1`, which the precondition leaves out.
pub assume_specification[ i64::rem_euclid ](lhs: i64, rhs: i64) -> (r: i64)
    requires
        rhs != 0,
        !(lhs == i64::MIN && rhs == -1),
    ensures
        r == (lhs as int) % (rhs as int),
;

impl i48 {
    /// `self + rhs`, if it fits.
    pub fn checked_add(self, rhs: Self) -> (r: Option<Self>)
        ensures
            r == checked(self@ + rhs@),
    {
        match self.as_i64().checked_add(rhs.as_i64()) {
            Some(x) => Self::new(x),
            None => None,
        }
    }

    /// `self - rhs`, if it fits.
    pub fn checked_sub(self, rhs: Self) -> (r: Option<Self>)
        ensures
            r == checked(self@ - rhs@),
    {
        match self.as_i64().checked_sub(rhs.as_i64()) {
            Some(x) => Self::new(x),
            None => None,
        }
    }

    /// `self * rhs`, if it fits.
    pub fn checked_mul(self, rhs: Self) -> (r: Option<Self>)
        ensures
            r == checked(self@ * rhs@),
    {
        match self.as_i64().checked_mul(rhs.as_i64()) {
            Some(x) => Self::new(x),
            None => None,
        }
    }

    /// The quotient rounded toward zero, if `rhs` is not zero and the quotient fits (it
    /// does not for `MIN / -1`).
    pub fn checked_div(self, rhs: Self) -> (r: Option<Self>)
        ensures
            r == (if rhs@ == 0 {
                None
            } else {
                checked(trunc_div(self@, rhs@))
            }),
    {
        proof {
            if rhs@ != 0 {
                lemma_trunc_div_rem(self@, rhs@);
            }
        }
        match self.as_i64().checked_div(rhs.as_i64()) {
            Some(x) => Self::new(x),
            None => None,
        }
    }

    /// The Euclidean quotient, if `rhs` is not zero and the quotient fits.
    pub fn checked_div_euclid(self, rhs: Self) -> (r: Option<Self>)
        ensures
            r == (if rhs@ == 0 {
                None
            } else {
                checked(self@ / rhs@)
            }),
    {
        match self.as_i64().checked_div_euclid(rhs.as_i64()) {
            Some(x) => Self::new(x),
            None => None,
        }
    }

    /// The remainder of the division rounded toward zero, if `rhs` is not zero.
    pub fn checked_rem(self, rhs: Self) -> (r: Option<Self>)
        ensures
            r == (if rhs@ == 0 {
                None
            } else {
                Some(i48::spec_new(trunc_rem(self@, rhs@)))
            }),
            rhs@ != 0 ==> r.unwrap()@ == trunc_rem(self@, rhs@),
    {
        proof {
            if rhs@ != 0 {
                lemma_trunc_div_rem(self@, rhs@);
                i48::lemma_spec_new(trunc_rem(self@, rhs@));
            }
        }
        match self.as_i64().checked_rem(rhs.as_i64()) {
            Some(x) => Self::new(x),
            None => None,
        }
    }

    /// The Euclidean remainder, which is never negative, if `rhs` is not zero.
    pub fn checked_rem_euclid(self, rhs: Self) -> (r: Option<Self>)
        ensures
            r == (if rhs@ == 0 {
                None
            } else {
                Some(i48::spec_new(self@ % rhs@))
            }),
            rhs@ != 0 ==> r.unwrap()@ == self@ % rhs@,
    {
        proof {
            if rhs@ != 0 {
                lemma_euclid_div_rem(self@, rhs@);
                i48::lemma_spec_new(self@ % rhs@);
            }
        }
        match self.as_i64().checked_rem_euclid(rhs.as_i64()) {
            Some(x) => Self::new(x),
            None => None,
        }
    }

    /// The magnitude, if it fits (that of `MIN` does not).
    pub fn checked_abs(self) -> (r: Option<Self>)
        ensures
            r == checked(abs(self@)),
    {
        let x = self.as_i64();
        if x < 0 {
            Self::new(-x)
        } else {
            Self::new(x)
        }
    }

    /// The negation, if it fits (that of `MIN` does not).
    pub fn checked_neg(self) -> (r: Option<Self>)
        ensures
            r == checked(-self@),
    {
        Self::new(-self.as_i64())
    }

    /// The integer square root, if `self` is not negative.
    pub fn checked_isqrt(self) -> (r: Option<Self>)
        ensures
            self@ < 0 <==> r is None,
            self@ >= 0 ==> is_isqrt(self@, r.unwrap()@),
    {
        let x = self.as_i64();
        if x < 0 {
            return None;
        }
        let mut low: i64 = 0;
        let mut high: i64 = 0x100_0000;
        assert(0x100_0000 * 0x100_0000 > MAX) by (nonlinear_arith);
        while high - low > 1
            invariant
                0 <= low < high <= 0x100_0000,
                low * low <= x < high * high,
            decreases high - low,
        {
            let mid = low + (high - low) / 2;
            assert(0 <= mid * mid <= 0x1_0000_0000_0000) by (nonlinear_arith)
                requires
                    0 <= mid <= 0x100_0000,
            ;
            if mid * mid <= x {
                low = mid;
            } else {
                high = mid;
            }
        }
        Self::new(low)
    }

    /// `self + rhs`, wrapped to 48 bits.
    pub fn wrapping_add(self, rhs: Self) -> (r: Self)
        ensures
            r == i48::spec_new(self@ + rhs@),
            r@ == wrap(self@ + rhs@),
    {
        Self::new_wrapping(self.as_i64().wrapping_add(rhs.as_i64()))
    }

    /// `self - rhs`, wrapped to 48 bits.
    pub fn wrapping_sub(self, rhs: Self) -> (r: Self)
        ensures
            r == i48::spec_new(self@ - rhs@),
            r@ == wrap(self@ - rhs@),
    {
        Self::new_wrapping(self.as_i64().wrapping_sub(rhs.as_i64()))
    }

    /// `self * rhs`, wrapped to 48 bits.
    pub fn wrapping_mul(self, rhs: Self) -> (r: Self)
        ensures
            r == i48::spec_new(self@ * rhs@),
            r@ == wrap(self@ * rhs@),
    {
        let a = self.as_i64();
        let b = rhs.as_i64();
        let p = a.wrapping_mul(b);
        proof {
            lemma_rewrap(a * b);
        }
        Self::new_wrapping(p)
    }

    /// The quotient rounded toward zero, wrapped to 48 bits (`MIN / -1` wraps to `MIN`).
    pub fn wrapping_div(self, rhs: Self) -> (r: Self)
        requires
            rhs@ != 0,
        ensures
            r == i48::spec_new(trunc_div(self@, rhs@)),
            r@ == wrap(trunc_div(self@, rhs@)),
    {
        let a = self.as_i64();
        let b = rhs.as_i64();
        proof {
            lemma_trunc_div_rem(a as int, b as int);
            lemma_native_div_rem(a as int, b as int);
        }
        Self::new_wrapping(a / b)
    }

    /// The Euclidean quotient, wrapped to 48 bits.
    pub fn wrapping_div_euclid(self, rhs: Self) -> (r: Self)
        requires
            rhs@ != 0,
        ensures
            r == i48::spec_new(self@ / rhs@),
            r@ == wrap(self@ / rhs@),
    {
        let a = self.as_i64();
        let b = rhs.as_i64();
        proof {
            lemma_euclid_div_rem(a as int, b as int);
        }
        Self::new_wrapping(a.div_euclid(b))
    }

    /// The remainder of the division rounded toward zero. It always fits.
    pub fn wrapping_rem(self, rhs: Self) -> (r: Self)
        requires
            rhs@ != 0,
        ensures
            r == i48::spec_new(trunc_rem(self@, rhs@)),
            r@ == trunc_rem(self@, rhs@),
    {
        let a = self.as_i64();
        let b = rhs.as_i64();
        proof {
            lemma_trunc_div_rem(a as int, b as int);
            lemma_native_div_rem(a as int, b as int);
            lemma_wrap(trunc_rem(a as int, b as int));
        }
        Self::new_wrapping(a % b)
    }

    /// The Euclidean remainder, which is never negative. It always fits.
    pub fn wrapping_rem_euclid(self, rhs: Self) -> (r: Self)
        requires
            rhs@ != 0,
        ensures
            r == i48::spec_new(self@ % rhs@),
            r@ == self@ % rhs@,
    {
        let a = self.as_i64();
        let b = rhs.as_i64();
        proof {
            lemma_euclid_div_rem(a as int, b as int);
            lemma_wrap((a as int) % (b as int));
        }
        Self::new_wrapping(a.rem_euclid(b))
    }

    /// The magnitude, wrapped to 48 bits (that of `MIN` wraps to `MIN`).
    pub fn wrapping_abs(self) -> (r: Self)
        ensures
            r == i48::spec_new(abs(self@)),
            r@ == wrap(abs(self@)),
    {
        let x = self.as_i64();
        if x < 0 {
            Self::new_wrapping(-x)
        } else {
            Self::new_wrapping(x)
        }
    }

    /// The negation, wrapped to 48 bits (that of `MIN` wraps to `MIN`).
    pub fn wrapping_neg(self) -> (r: Self)
        ensures
            r == i48::spec_new(-self@),
            r@ == wrap(-self@),
    {
        let bits = self.to_bits();
        proof {
            lemma_negate_bits(bits);
            lemma_negate_pattern(self@);
            lemma_wrap(-self@);
        }
        Self::from_bits_wrapping((!bits).wrapping_add(1))
    }
}

/// Wrapping to 64 bits and then to 48 gives what wrapping to 48 bits gives at once.
proof fn lemma_rewrap(p: int)
    ensures
        pattern(vstd::wrapping::i64_specs::signed_crop(p) as int) == pattern(p),
{
    let m = p % 0x1_0000_0000_0000_0000;
    vstd::arithmetic::div_mod::lemma_mod_mod(p, 0x1_0000_0000_0000, 0x1_0000);
    if m > i64::MAX {
        vstd::arithmetic::div_mod::lemma_mod_sub_multiples_vanish(
            m - 0x1_0000_0000_0000 * 0xFFFF,
            0x1_0000_0000_0000,
        );
        vstd::arithmetic::div_mod::lemma_mod_multiples_vanish(-0xFFFF, m, 0x1_0000_0000_0000);
    }
}

/// What the machine's `/` and `%` compute on signed operands, stated through Euclidean
/// division of the dividend's magnitude, is the truncated quotient and remainder.
pub proof fn lemma_native_div_rem(a: int, b: int)
    requires
        b != 0,
    ensures
        (if a >= 0 {
            a / b
        } else {
            -((-a) / b)
        }) == trunc_div(a, b),
        (if a >= 0 {
            a % b
        } else {
            -((-a) % b)
        }) == trunc_rem(a, b),
{
    let x = abs(a);
    lemma_euclid_div_rem(x, b);
    lemma_euclid_div_rem(x, abs(b));
    if b < 0 {
        // x = b * (x / b) + x % b = (-b) * (x / -b) + x % -b, both remainders in [0, -b)
        assert(x / b == -(x / (-b)) && x % b == x % (-b)) by (nonlinear_arith)
            requires
                b < 0,
                x == b * (x / b) + x % b,
                x == (-b) * (x / (-b)) + x % (-b),
                0 <= x % b < -b,
                0 <= x % (-b) < -b,
        ;
    }
}

/// The pattern of a negated integer depends on the integer's pattern alone.
proof fn lemma_negate_pattern(v: int)
    ensures
        pattern(-v) == pattern(-(pattern(v) as int)),
{
    vstd::arithmetic::div_mod::lemma_fundamental_div_mod(v, 0x1_0000_0000_0000);
    vstd::arithmetic::div_mod::lemma_mod_multiples_vanish(
        v / 0x1_0000_0000_0000,
        -v,
        0x1_0000_0000_0000,
    );
}

/// Complementing a 48-bit pattern and adding one gives, in the low 48 bits, the pattern
/// of the negated integer.
proof fn lemma_negate_bits(x: u64)
    requires
        x <= MASK,
    ensures
        (((!x).wrapping_add(1)) as int) % 0x1_0000_0000_0000 == (-(x as int))
            % 0x1_0000_0000_0000,
{
    let y = (!x).wrapping_add(1);
    assert(y == if x == 0 {
        0
    } else {
        0x1_0000_0000_0000_0000 - x
    }) by {
        assert(!x == 0xFFFF_FFFF_FFFF_FFFFu64 - x) by (bit_vector);
    }
    if x != 0 {
        vstd::arithmetic::div_mod::lemma_mod_multiples_vanish(
            0x1_0000,
            -(x as int),
            0x1_0000_0000_0000,
        );
    }
}

} // verus!
