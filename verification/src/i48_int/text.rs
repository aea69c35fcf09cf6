//! [`i48`] values written out.
//!
//! In decimal a value is written with its sign. In any other radix it is written the
//! way machine integers usually are: as the bit pattern of the value widened to 64
//! bits, so that a negative value shows as a large unsigned number.
use super::i48;
use crate::radix::int_text;
use crate::radix::nat_text;
use crate::radix::push_nat;
use crate::radix::valid_radix;
use vstd::prelude::*;

verus! {

/// The two's-complement bit pattern of `v` in 64 bits, as a natural number.
pub open spec fn pattern64(v: int) -> nat {
    if v < 0 {
        (v + 0x1_0000_0000_0000_0000) as nat
    } else {
        v as nat
    }
}

/// `v` written in `radix`: in decimal with its sign, in another radix as its 64-bit
/// pattern.
pub open spec fn int_text_in(v: int, radix: int, uppercase: bool) -> Seq<char> {
    if radix == 10 {
        int_text(v)
    } else {
        nat_text(pattern64(v), radix as nat, uppercase)
    }
}

/// Reading a signed word as unsigned gives its two's-complement pattern.
proof fn lemma_pattern64(x: i64)
    ensures
        (x as u64) as nat == pattern64(x as int),
{
    assert(x >= 0 ==> (x as u64) == x) by (bit_vector);
    assert(x < 0 ==> (x as u64) == x + 0x1_0000_0000_0000_0000) by (bit_vector);
}

impl i48 {
    /// Appends the value written in `radix` to `s`.
    pub fn push_text(&self, s: &mut String, radix: u32, uppercase: bool)
        requires
            valid_radix(radix as int),
        ensures
            final(s)@ == old(s)@ + int_text_in(self@, radix as int, uppercase),
    {
        let x = self.as_i64();
        if radix != 10 {
            proof {
                lemma_pattern64(x);
            }
            push_nat(s, x as u64, radix, uppercase);
        } else if x < 0 {
            s.push('-');
            push_nat(s, (-x) as u64, 10, false);
            assert(s@ =~= old(s)@ + int_text(x as int));
        } else {
            push_nat(s, x as u64, 10, false);
        }
    }

    /// The value written in `radix`.
    pub fn format(&self, radix: u32, uppercase: bool) -> (s: String)
        requires
            valid_radix(radix as int),
        ensures
            s@ == int_text_in(self@, radix as int, uppercase),
    {
        let mut s = String::new();
        self.push_text(&mut s, radix, uppercase);
        assert(s@ =~= int_text_in(self@, radix as int, uppercase));
        s
    }

    /// The value written in decimal, with a minus sign before a negative one.
    pub fn to_string(&self) -> (s: String)
        ensures
            s@ == int_text(self@),
    {
        self.format(10, false)
    }
}

} // verus!
