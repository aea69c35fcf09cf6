//! Fixed-point numbers with sixteen fractional bits.
//!
//! A [`Fract`] is a magnitude in `[0, 1)` counted in steps of `1/65536`. A [`FixedPoint`]
//! is a signed number counted in the same steps and kept in one 64-bit word: a 48-bit
//! integer part in the high bits, a `Fract` in the low sixteen. The model of either is its
//! count of steps, an integer; the number stood for is that count over `65536`.
use crate::i48_int::i48;
use crate::i48_int::in_range;
use crate::i48_int::lemma_wrap;
use crate::i48_int::signed;
use crate::i48_int::MASK;
use crate::radix::can_write;
use crate::radix::digit_to_char;
use crate::radix::fract_rest;
use crate::radix::fract_text;
use crate::radix::fraction_text;
use crate::radix::lemma_expansion_len;
use crate::radix::lemma_fract_ended;
use crate::radix::lemma_fract_ends_even;
use crate::radix::lemma_fract_step;
use crate::radix::lemma_fract_text_push;
use crate::radix::valid_radix;
use vstd::prelude::*;

pub mod ops;
pub mod order;
pub mod text;

verus! {

/// The number of steps in one unit: `2^16`.
pub const FRACTIONAL_SCALE: u32 = 0x1_0000;

/// A magnitude in `[0, 1)` at a resolution of `1/65536`. Every 16-bit pattern is one.
#[derive(Clone, Copy, Debug, Hash, PartialEq, Eq, Ord, Structural)]
pub struct Fract(pub u16);

impl View for Fract {
    type V = int;

    /// The count of steps: the numerator over `65536`.
    open spec fn view(&self) -> int {
        self.0 as int
    }
}

/// Whether `done` digits are fewer than the limit, if there is one.
fn below_limit(done: usize, limit: Option<usize>) -> (r: bool)
    ensures
        r == match limit {
            Some(max) => done < max,
            None => true,
        },
{
    match limit {
        Some(max) => done < max,
        None => true,
    }
}

impl Fract {
    /// Zero.
    pub fn zero() -> (r: Self)
        ensures
            r@ == 0,
    {
        Fract(0)
    }

    /// One half.
    pub fn half() -> (r: Self)
        ensures
            r@ == 0x8000,
    {
        Self::recip(2)
    }

    /// The digits after the point of `self` written in `radix`, at most `max_digits` of
    /// them where that is given: see [`fraction_text`].
    pub fn fmt_fractional(self, radix: u32, uppercase: bool, max_digits: Option<usize>) -> (s:
        String)
        requires
            can_write(self@, radix as int, max_digits),
        ensures
            s@ == fraction_text(self@, radix as int, uppercase, max_digits),
    {
        let mut s = String::new();
        if self.0 == 0 && max_digits.is_none() {
            s.push('0');
            return s;
        }
        let ghost n = self@;
        let ghost base = radix as int;
        proof {
            lemma_fract_step(n, base, 0);
            if radix % 2 == 0 {
                lemma_fract_ends_even(n, base);
            }
            assert(s@ =~= fract_text(n, base, uppercase, 0));
        }
        let mut numerator: u32 = self.0 as u32 * radix;
        let mut digits_emitted: usize = 0;
        while numerator != 0 && below_limit(digits_emitted, max_digits)
            invariant
                0 <= n < 0x1_0000,
                valid_radix(base),
                base == radix,
                radix % 2 == 0 || max_digits is Some,
                radix % 2 == 0 ==> fract_rest(n, base, 16) == 0,
                numerator == fract_rest(n, base, digits_emitted as nat) * radix,
                0 <= fract_rest(n, base, digits_emitted as nat) < 0x1_0000,
                s@ == fract_text(n, base, uppercase, digits_emitted as nat),
                forall|j: nat| j < digits_emitted ==> fract_rest(n, base, j) != 0,
                max_digits is Some ==> digits_emitted <= max_digits.unwrap(),
                max_digits is None ==> digits_emitted <= 16,
            decreases
                    (match max_digits {
                        Some(max) => max - digits_emitted,
                        None => 16 - digits_emitted,
                    }),
        {
            proof {
                lemma_fract_step(n, base, digits_emitted as nat);
                lemma_fract_step(n, base, (digits_emitted + 1) as nat);
                lemma_fract_text_push(n, base, uppercase, digits_emitted as nat);
                assert(fract_rest(n, base, digits_emitted as nat) != 0) by (nonlinear_arith)
                    requires
                        numerator == fract_rest(n, base, digits_emitted as nat) * radix,
                        numerator != 0,
                ;
            }
            let quotient = numerator / FRACTIONAL_SCALE;
            let remainder = numerator % FRACTIONAL_SCALE;
            numerator = remainder * radix;
            s.push(digit_to_char(quotient, uppercase));
            digits_emitted += 1;
        }
        proof {
            assert(numerator == 0 ==> fract_rest(n, base, digits_emitted as nat) == 0)
                by (nonlinear_arith)
                requires
                    numerator == fract_rest(n, base, digits_emitted as nat) * radix,
                    radix >= 2,
            ;
            if max_digits is None {
                lemma_expansion_len(n, base, digits_emitted as nat);
            }
        }
        if let Some(max) = max_digits {
            let ghost ended = digits_emitted as nat;
            while digits_emitted < max
                invariant
                    0 <= n < 0x1_0000,
                    valid_radix(base),
                    ended <= digits_emitted <= max,
                    digits_emitted < max ==> fract_rest(n, base, ended) == 0,
                    s@ == fract_text(n, base, uppercase, digits_emitted as nat),
                decreases max - digits_emitted,
            {
                proof {
                    lemma_fract_ended(n, base, ended, digits_emitted as nat);
                    lemma_fract_text_push(n, base, uppercase, digits_emitted as nat);
                }
                s.push('0');
                digits_emitted += 1;
            }
        }
        s
    }

    /// The reciprocal `1/x`, rounded down to a whole number of steps. There is none for
    /// zero, and that of one is not below one.
    pub fn recip(x: u16) -> (r: Self)
        requires
            x > 1,
        ensures
            r@ == 0x1_0000int / (x as int),
    {
        proof {
            vstd::arithmetic::div_mod::lemma_div_is_ordered_by_denominator(0x1_0000, 2, x as int);
            vstd::arithmetic::div_mod::lemma_div_pos_is_pos(0x1_0000, x as int);
        }
        Fract((FRACTIONAL_SCALE / x as u32) as u16)
    }
}

/// A signed fixed-point number with sixteen fractional bits, in one 64-bit word. Order
/// and equality are those of the word.
#[derive(Clone, Copy, Debug, Hash, PartialEq, Eq, Ord, Structural)]
pub struct FixedPoint(pub i64);

impl View for FixedPoint {
    type V = int;

    /// The count of steps of `1/65536`: the raw word.
    open spec fn view(&self) -> int {
        self.0 as int
    }
}

/// `v` clamped to what a 64-bit word holds.
pub open spec fn saturate(v: int) -> int {
    if v < i64::MIN {
        i64::MIN as int
    } else if v > i64::MAX {
        i64::MAX as int
    } else {
        v
    }
}

/// The count of steps of the number with integer part `integer` and fractional part
/// `fractional`.
pub open spec fn pack(integer: int, fractional: int) -> int {
    integer * 0x1_0000 + fractional
}

/// The integer part and the fractional part of the number of `raw` steps: `raw` divided
/// by `65536` rounded down, and what that leaves.
pub open spec fn unpack(raw: int) -> (int, int) {
    (raw / 0x1_0000, raw % 0x1_0000)
}

/// Packing an integer part of 48 bits and a fractional part gives a word from which
/// unpacking recovers the two.
pub proof fn lemma_pack_round_trip(integer: int, fractional: int)
    requires
        in_range(integer),
        0 <= fractional < 0x1_0000,
    ensures
        i64::MIN <= pack(integer, fractional) <= i64::MAX,
        unpack(pack(integer, fractional)) == (integer, fractional),
{
}

/// Every word unpacks into an integer part of 48 bits and a fractional part that pack
/// into the same word again.
pub proof fn lemma_unpack_round_trip(raw: int)
    requires
        i64::MIN <= raw <= i64::MAX,
    ensures
        in_range(unpack(raw).0),
        0 <= unpack(raw).1 < 0x1_0000,
        pack(unpack(raw).0, unpack(raw).1) == raw,
{
}

/// Saturating keeps a value that a word holds and brings any other to the nearest end
/// of the range, so that no result lies outside it.
pub proof fn lemma_saturate(v: int)
    ensures
        i64::MIN <= saturate(v) <= i64::MAX,
        i64::MIN <= v <= i64::MAX ==> saturate(v) == v,
        v > i64::MAX ==> saturate(v) == i64::MAX,
        v < i64::MIN ==> saturate(v) == i64::MIN,
{
}

/// The bit-level facts behind packing: a 48-bit pattern shifted up sixteen places, with
/// or without a fraction in the low bits, is the signed integer times `65536` plus the
/// fraction.
proof fn lemma_pack_bits(b: u64, f: u16)
    requires
        b <= MASK,
    ensures
        (((b << 16) | (f as u64)) as i64) as int == signed(b) * 0x1_0000 + f,
        ((b << 16) as i64) as int == signed(b) * 0x1_0000,
{
    assert(b <= 0x0000_FFFF_FFFF_FFFFu64 ==> (((b << 16) | (f as u64)) as i64) as int == (if b
        >= 0x8000_0000_0000u64 {
        b - 0x1_0000_0000_0000
    } else {
        b as int
    }) * 0x1_0000 + f) by (bit_vector);
    assert(b <= 0x0000_FFFF_FFFF_FFFFu64 ==> ((b << 16) as i64) as int == (if b
        >= 0x8000_0000_0000u64 {
        b - 0x1_0000_0000_0000
    } else {
        b as int
    }) * 0x1_0000) by (bit_vector);
}

/// The bit-level facts behind unpacking: the high 48 bits of a word are the pattern of
/// its quotient by `65536` rounded down, the low sixteen are its remainder.
proof fn lemma_unpack_bits(raw: i64)
    ensures
        (raw as u64) >> 16 <= MASK,
        signed((raw as u64) >> 16) == (raw as int) / 0x1_0000,
        (raw as u16) as int == (raw as int) % 0x1_0000,
{
    assert(((raw as u64) >> 16) <= 0x0000_FFFF_FFFF_FFFFu64) by (bit_vector);
    assert(((raw as u64) >> 16) as int == ((raw as int) / 0x1_0000) % 0x1_0000_0000_0000)
        by (bit_vector);
    assert((raw as u16) as int == (raw as int) % 0x1_0000) by (bit_vector);
    lemma_wrap((raw as int) / 0x1_0000);
}

impl FixedPoint {
    /// Zero.
    pub fn zero() -> (r: Self)
        ensures
            r@ == 0,
    {
        FixedPoint(0)
    }

    /// The smallest number: the word `i64::MIN`.
    pub fn min_value() -> (r: Self)
        ensures
            r@ == i64::MIN,
    {
        FixedPoint(i64::MIN)
    }

    /// The largest number: the word `i64::MAX`.
    pub fn max_value() -> (r: Self)
        ensures
            r@ == i64::MAX,
    {
        FixedPoint(i64::MAX)
    }

    /// The integer part: the number rounded down to a whole one.
    pub open spec fn int_part(self) -> int {
        unpack(self@).0
    }

    /// The fractional part, in steps: what the number exceeds its integer part by.
    pub open spec fn frac_part(self) -> int {
        unpack(self@).1
    }

    /// Whether the number is below zero.
    pub fn is_negative(self) -> (r: bool)
        ensures
            r == (self@ < 0),
    {
        self.0 < 0
    }

    /// The number with the given integer and fractional parts.
    pub fn from_raw(integer: i48, fractional: Fract) -> (r: Self)
        ensures
            r@ == pack(integer@, fractional@),
            unpack(r@) == (integer@, fractional@),
    {
        let high = integer.to_bits();
        proof {
            use_type_invariant(&integer);
            integer.lemma_view();
            lemma_wrap(integer@);
            lemma_pack_bits(high, fractional.0);
        }
        let bits = (high << 16) | fractional.0 as u64;
        FixedPoint(bits as i64)
    }

    /// The whole number `integer`.
    pub fn from_int(integer: i48) -> (r: Self)
        ensures
            r@ == pack(integer@, 0),
    {
        let high = integer.to_bits();
        proof {
            use_type_invariant(&integer);
            integer.lemma_view();
            lemma_wrap(integer@);
            lemma_pack_bits(high, 0);
        }
        FixedPoint((high << 16) as i64)
    }

    /// The number below one that `fractional` stands for.
    pub fn from_fract(fractional: Fract) -> (r: Self)
        ensures
            r@ == pack(0, fractional@),
    {
        FixedPoint(fractional.0 as i64)
    }

    /// The integer and fractional parts.
    pub fn to_raw(self) -> (r: (i48, Fract))
        ensures
            (r.0@, r.1@) == unpack(self@),
            pack(r.0@, r.1@) == self@,
    {
        (self.integer(), self.fract())
    }

    /// The integer part: the high 48 bits of the word, read as a signed integer.
    pub fn integer(self) -> (r: i48)
        ensures
            r@ == self.int_part(),
    {
        proof {
            lemma_unpack_bits(self.0);
        }
        i48::from_bits_unchecked((self.0 as u64) >> 16)
    }

    /// The fractional part: the low sixteen bits of the word.
    pub fn fract(self) -> (r: Fract)
        ensures
            r@ == self.frac_part(),
    {
        proof {
            lemma_unpack_bits(self.0);
        }
        Fract(self.0 as u16)
    }
}

} // verus!
