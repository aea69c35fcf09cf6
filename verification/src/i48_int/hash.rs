//! Hashing of [`i48`] values.
//!
//! Two bytes of the storage word are always zero. Feeding them to a hasher would add
//! nothing but work, so only the six bytes of the bit pattern are hashed.
use super::i48;
use super::pattern;
use core::hash::Hash;
use core::hash::Hasher;
use vstd::prelude::*;

verus! {

/// Byte `i` of `bits`, counted from the least significant.
pub open spec fn byte_of(bits: u64, i: int) -> u8 {
    if i == 0 {
        (bits % 0x100) as u8
    } else if i == 1 {
        (bits / 0x100 % 0x100) as u8
    } else if i == 2 {
        (bits / 0x1_0000 % 0x100) as u8
    } else if i == 3 {
        (bits / 0x100_0000 % 0x100) as u8
    } else if i == 4 {
        (bits / 0x1_0000_0000 % 0x100) as u8
    } else {
        (bits / 0x100_0000_0000 % 0x100) as u8
    }
}

/// Shifting and masking take the bytes of a word apart.
proof fn lemma_bytes(b: u64)
    ensures
        b & 0xff == b % 0x100,
        (b >> 8) & 0xff == b / 0x100 % 0x100,
        (b >> 16) & 0xff == b / 0x1_0000 % 0x100,
        (b >> 24) & 0xff == b / 0x100_0000 % 0x100,
        (b >> 32) & 0xff == b / 0x1_0000_0000 % 0x100,
        (b >> 40) & 0xff == b / 0x100_0000_0000 % 0x100,
{
    assert(b & 0xff == b % 0x100 && (b >> 8) & 0xff == b / 0x100 % 0x100 && (b >> 16) & 0xff == b
        / 0x1_0000 % 0x100 && (b >> 24) & 0xff == b / 0x100_0000 % 0x100 && (b >> 32) & 0xff == b
        / 0x1_0000_0000 % 0x100 && (b >> 40) & 0xff == b / 0x100_0000_0000 % 0x100)
        by (bit_vector);
}

/// Hands the bytes to `Hasher::write` of the standard library. What a hasher makes of
/// them is its own affair: nothing is assumed of its state, and nothing proved.
#[verifier::external_body]
fn write_bytes<H: Hasher>(state: &mut H, bytes: &[u8; 6]) {
    state.write(bytes)
}

impl i48 {
    /// The six bytes of the bit pattern, least significant first.
    pub fn significant_bytes(self) -> (r: [u8; 6])
        ensures
            forall|i: int| 0 <= i < 6 ==> r[i] == byte_of(pattern(self@), i),
    {
        let b = self.to_bits();
        proof {
            lemma_bytes(b);
        }
        [
            (b & 0xff) as u8,
            ((b >> 8) & 0xff) as u8,
            ((b >> 16) & 0xff) as u8,
            ((b >> 24) & 0xff) as u8,
            ((b >> 32) & 0xff) as u8,
            ((b >> 40) & 0xff) as u8,
        ]
    }
}

impl Hash for i48 {
    /// Feeds the six significant bytes to the hasher, and nothing else.
    fn hash<H: Hasher>(&self, state: &mut H) {
        let bytes = self.significant_bytes();
        write_bytes(state, &bytes)
    }
}

} // verus!
