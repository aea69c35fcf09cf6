//! A signed integer confined to 48 bits.
//!
//! An [`i48`] is kept in a 64-bit word as its two's-complement bit pattern, zero-extended:
//! the two most significant bytes of the word are always zero. Its model is the
//! mathematical integer that the pattern stands for, a value in `[MIN, MAX]`.
use vstd::prelude::*;

pub mod arith;
pub mod convert;
pub mod hash;
pub mod mode;
pub mod ops;
pub mod order;
pub mod text;

verus! {

/// The 48 low bits of a 64-bit word.
pub const MASK: u64 = 0x0000_FFFF_FFFF_FFFF;

/// The largest value of a 48-bit two's-complement integer, `2^47 - 1`.
pub const MAX: i64 = 0x7FFF_FFFF_FFFF;

/// The smallest value of a 48-bit two's-complement integer, `-2^47`.
pub const MIN: i64 = -0x8000_0000_0000;

/// Whether `v` can be held in 48 bits.
pub open spec fn in_range(v: int) -> bool {
    MIN <= v <= MAX
}

/// The value in `[MIN, MAX]` that is congruent to `v` modulo `2^48`: what is left of `v`
/// after two's-complement wraparound to 48 bits.
pub open spec fn wrap(v: int) -> int {
    let m = v % 0x1_0000_0000_0000;
    if m >= 0x8000_0000_0000 {
        m - 0x1_0000_0000_0000
    } else {
        m
    }
}

/// The 48-bit two's-complement bit pattern of `v`, zero-extended to 64 bits.
pub open spec fn pattern(v: int) -> u64 {
    (v % 0x1_0000_0000_0000) as u64
}

/// The integer that a zero-extended 48-bit two's-complement pattern stands for.
pub open spec fn signed(bits: u64) -> int {
    if bits >= 0x8000_0000_0000 {
        bits - 0x1_0000_0000_0000
    } else {
        bits as int
    }
}

/// `wrap` leaves the values of the 48-bit range alone and maps every integer into it.
pub proof fn lemma_wrap(v: int)
    ensures
        in_range(wrap(v)),
        in_range(v) ==> wrap(v) == v,
        signed(pattern(v)) == wrap(v),
        pattern(v) <= MASK,
        pattern(wrap(v)) == pattern(v),
{
    let m = v % 0x1_0000_0000_0000;
    if m >= 0x8000_0000_0000 {
        vstd::arithmetic::div_mod::lemma_mod_sub_multiples_vanish(m, 0x1_0000_0000_0000);
        vstd::arithmetic::div_mod::lemma_mod_twice(v, 0x1_0000_0000_0000);
    } else {
        vstd::arithmetic::div_mod::lemma_mod_twice(v, 0x1_0000_0000_0000);
    }
}

/// A pattern of 48 bits is the pattern of the integer it stands for.
pub proof fn lemma_signed(bits: u64)
    requires
        bits <= MASK,
    ensures
        in_range(signed(bits)),
        pattern(signed(bits)) == bits,
{
    if bits >= 0x8000_0000_0000 {
        vstd::arithmetic::div_mod::lemma_mod_add_multiples_vanish(
            signed(bits),
            0x1_0000_0000_0000,
        );
    }
}

/// The bit-level facts behind the storage word: masking keeps the pattern, and shifting
/// up and arithmetically down again extends the sign.
proof fn lemma_word_bits(x: u64)
    ensures
        (x & MASK) as int == (x as int) % 0x1_0000_0000_0000,
        x & MASK <= MASK,
        x <= MASK ==> x & MASK == x && x & !MASK == 0,
        x <= MASK ==> (((x << 16) as i64) >> 16) as int == signed(x),
{
    assert((x & 0x0000_FFFF_FFFF_FFFFu64) as int == (x as int) % 0x1_0000_0000_0000)
        by (bit_vector);
    assert(x & 0x0000_FFFF_FFFF_FFFFu64 <= 0x0000_FFFF_FFFF_FFFFu64) by (bit_vector);
    assert(x <= 0x0000_FFFF_FFFF_FFFFu64 ==> x & 0x0000_FFFF_FFFF_FFFFu64 == x && x
        & !0x0000_FFFF_FFFF_FFFFu64 == 0) by (bit_vector);
    assert(x <= 0x0000_FFFF_FFFF_FFFFu64 ==> (((x << 16) as i64) >> 16) as int == (if x
        >= 0x8000_0000_0000u64 {
        x - 0x1_0000_0000_0000
    } else {
        x as int
    })) by (bit_vector);
}

/// Reading a signed word as unsigned keeps it modulo `2^64`, hence modulo `2^48`.
proof fn lemma_reinterpret(x: i64)
    ensures
        ((x as u64) & MASK) == pattern(x as int),
{
    assert(((x as u64) & 0x0000_FFFF_FFFF_FFFFu64) as int == (x as int) % 0x1_0000_0000_0000)
        by (bit_vector);
}

/// Assumed of `likely_stable::unlikely`, not proved: it marks `b` as rarely true for the
/// compiler and hands it back unchanged.
pub assume_specification[ likely_stable::unlikely ](b: bool) -> (r: bool)
    ensures
        r == b,
;

/// The storage word of a 48-bit integer: the bit pattern in the low 48 bits of a `u64`,
/// the high 16 bits zero.
#[derive(Clone, Copy, Debug, PartialEq, Eq, Structural)]
pub struct Repr {
    bits: u64,
}

impl View for Repr {
    type V = u64;

    /// The stored word.
    closed spec fn view(&self) -> u64 {
        self.bits
    }
}

impl Repr {
    /// The two most significant bytes of the word are zero.
    #[verifier::type_invariant]
    pub closed spec fn wf(self) -> bool {
        self.bits <= MASK
    }

    /// Hands `x` back, having established what the rest of the type relies on: no bit of
    /// `x` lies outside the 48-bit mask.
    pub fn hint_bits_good(x: u64) -> (r: u64)
        requires
            x <= MASK,
        ensures
            r == x,
            r & MASK == r,
            r & !MASK == 0,
    {
        proof {
            lemma_word_bits(x);
        }
        x
    }

    /// The word with pattern `x`, if `x` has no bit above the 48th.
    pub fn from_bits(x: u64) -> (r: Option<Self>)
        ensures
            r is Some <==> x <= MASK,
            r is Some ==> r.unwrap()@ == x,
    {
        if likely_stable::unlikely(x > MASK) {
            return None;
        }
        Some(Self::from_bits_unchecked(x))
    }

    /// The word with the low 48 bits of `x`.
    pub fn from_bits_wrapping(x: u64) -> (r: Self)
        ensures
            r@ == x & MASK,
            r@ == (x as int) % 0x1_0000_0000_0000,
    {
        proof {
            lemma_word_bits(x);
        }
        Self::from_bits_unchecked(x & MASK)
    }

    /// The word with pattern `x`, for a caller who has shown that `x` fits.
    pub fn from_bits_unchecked(x: u64) -> (r: Self)
        requires
            x <= MASK,
        ensures
            r@ == x,
    {
        Repr { bits: Self::hint_bits_good(x) }
    }

    /// The stored pattern.
    pub fn to_bits(self) -> (r: u64)
        ensures
            r == self@,
            r <= MASK,
    {
        proof {
            use_type_invariant(&self);
        }
        Self::hint_bits_good(self.bits)
    }

    /// The integer that the word stands for, by sign extension from bit 47.
    pub fn as_i64(self) -> (r: i64)
        ensures
            r == signed(self@),
            MIN <= r <= MAX,
    {
        let bits = self.to_bits();
        proof {
            lemma_word_bits(bits);
        }
        ((bits << 16) as i64) >> 16
    }
}

/// A signed 48-bit integer. Its view is the integer it holds, a value in `[MIN, MAX]`.
#[allow(non_camel_case_types)]
#[derive(Clone, Copy, Debug, PartialEq, Eq, Structural)]
pub struct i48(Repr);

impl View for i48 {
    type V = int;

    /// The integer held.
    closed spec fn view(&self) -> int {
        signed(self.0@)
    }
}

/// The result of a checked operation whose exact result is `v`: the 48-bit integer `v`,
/// or nothing where `v` does not fit.
pub open spec fn checked(v: int) -> Option<i48> {
    if in_range(v) {
        Some(i48::spec_new(v))
    } else {
        None
    }
}

/// An integer of the 48-bit range makes a value that holds just that integer; an
/// integer outside the range makes none.
pub proof fn lemma_checked(v: int)
    ensures
        in_range(v) ==> checked(v) is Some && checked(v).unwrap()@ == v && checked(
            v,
        ).unwrap().wf(),
        !in_range(v) ==> checked(v) is None,
{
    i48::lemma_spec_new(v);
}

impl i48 {
    /// The width in bits.
    pub const BITS: u32 = 48;

    /// The storage word is well formed.
    #[verifier::type_invariant]
    pub closed spec fn wf(self) -> bool {
        self.0.wf()
    }

    /// The 48-bit integer that `v` wraps to; `v` itself where `v` is in range.
    pub closed spec fn spec_new(v: int) -> i48 {
        i48(Repr { bits: pattern(v) })
    }

    /// `spec_new` makes well-formed values that hold `wrap(v)`.
    pub proof fn lemma_spec_new(v: int)
        ensures
            i48::spec_new(v).wf(),
            i48::spec_new(v)@ == wrap(v),
            in_range(v) ==> i48::spec_new(v)@ == v,
    {
        lemma_wrap(v);
    }

    /// A well-formed value holds an integer of the 48-bit range and is fixed by it.
    pub proof fn lemma_view(self)
        requires
            self.wf(),
        ensures
            in_range(self@),
            i48::spec_new(self@) == self,
    {
        lemma_signed(self.0@);
    }

    /// Two well-formed values that hold the same integer are the same value.
    pub proof fn lemma_view_injective(self, other: Self)
        requires
            self.wf(),
            other.wf(),
            self@ == other@,
        ensures
            self == other,
    {
        self.lemma_view();
        other.lemma_view();
    }

    /// The largest value, `2^47 - 1`.
    pub fn max_value() -> (r: Self)
        ensures
            r@ == MAX,
            r == i48::spec_new(MAX as int),
    {
        Self::new_unchecked(MAX)
    }

    /// The smallest value, `-2^47`.
    pub fn min_value() -> (r: Self)
        ensures
            r@ == MIN,
            r == i48::spec_new(MIN as int),
    {
        Self::new_unchecked(MIN)
    }

    /// The value with bit pattern `x`, if `x` has no bit above the 48th.
    pub fn from_bits(x: u64) -> (r: Option<Self>)
        ensures
            r == (if x <= MASK {
                Some(i48::spec_new(signed(x)))
            } else {
                None
            }),
            x <= MASK ==> r.unwrap()@ == signed(x),
    {
        proof {
            if x <= MASK {
                lemma_signed(x);
            }
        }
        match Repr::from_bits(x) {
            Some(x) => Some(Self(x)),
            None => None,
        }
    }

    /// The value with bit pattern `x`, for a caller who has shown that `x` has no bit
    /// above the 48th.
    pub fn from_bits_unchecked(x: u64) -> (r: Self)
        requires
            x <= MASK,
        ensures
            r == i48::spec_new(signed(x)),
            r@ == signed(x),
    {
        proof {
            lemma_signed(x);
        }
        Self(Repr::from_bits_unchecked(x))
    }

    /// The value whose bit pattern is the low 48 bits of `x`.
    pub fn from_bits_wrapping(x: u64) -> (r: Self)
        ensures
            r == i48::spec_new(x as int),
            r@ == wrap(x as int),
    {
        proof {
            lemma_wrap(x as int);
        }
        Self(Repr::from_bits_wrapping(x))
    }

    /// The value `x`, if it fits in 48 bits.
    pub fn new(x: i64) -> (r: Option<Self>)
        ensures
            r == checked(x as int),
            in_range(x as int) ==> r.unwrap()@ == x,
    {
        if x > MAX || x < MIN {
            return None;
        }
        Some(Self::new_unchecked(x))
    }

    /// The value `x`, for a caller who has shown that `x` fits in 48 bits.
    pub fn new_unchecked(x: i64) -> (r: Self)
        requires
            in_range(x as int),
        ensures
            r == i48::spec_new(x as int),
            r@ == x,
    {
        Self::new_wrapping(x)
    }

    /// The value that `x` wraps to: the low 48 bits of `x`, read as a signed integer.
    pub fn new_wrapping(x: i64) -> (r: Self)
        ensures
            r == i48::spec_new(x as int),
            r@ == wrap(x as int),
    {
        proof {
            lemma_reinterpret(x);
            lemma_word_bits(x as u64);
            lemma_wrap(x as int);
        }
        Self::from_bits_wrapping(x as u64)
    }

    /// The integer held, widened to 64 bits.
    pub fn as_i64(self) -> (r: i64)
        ensures
            r == self@,
            in_range(r as int),
    {
        self.0.as_i64()
    }

    /// The bit pattern: the value modulo `2^48`.
    pub fn to_bits(self) -> (r: u64)
        ensures
            r == pattern(self@),
            r <= MASK,
    {
        let r = self.0.to_bits();
        proof {
            lemma_signed(r);
        }
        r
    }
}

} // verus!
