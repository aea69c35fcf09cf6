//! The coordinates of the world.
//!
//! The world is a grid of blocks, cut along `x` and `z` into chunks sixteen blocks wide.
//! A block is addressed by its chunk and its place in the chunk; the address packs into
//! far less room than three 48-bit coordinates would take. Going from world coordinates
//! to the address is Euclidean division by sixteen, so that negative coordinates fall
//! into chunks the same way as positive ones. A chunk index is 32 bits wide: a
//! coordinate beyond what those reach is moved to the nearest block that can be
//! addressed.
//!
//! Continuous positions are three fixed-point numbers and know nothing of chunks.
use crate::fixed_point::saturate;
use crate::fixed_point::FixedPoint;
use crate::i48_int::i48;
use crate::FixedPointVec3;
use core::ops::Add;
use core::ops::AddAssign;
use vstd::prelude::*;
use vstd::std_specs::ops::AddSpecImpl;

verus! {

/// The least world coordinate that has an address: the first block of the first chunk.
pub open spec fn min_coordinate() -> int {
    i32::MIN * 16
}

/// The greatest world coordinate that has an address: the last block of the last chunk.
pub open spec fn max_coordinate() -> int {
    i32::MAX * 16 + 15
}

/// Whether the world coordinate `v` has an address of its own.
pub open spec fn addressable(v: int) -> bool {
    min_coordinate() <= v <= max_coordinate()
}

/// The index of the chunk that holds the world coordinate `v`: `v / 16` rounded down,
/// kept within 32 bits.
pub open spec fn axis_chunk(v: int) -> int {
    if v / 16 > i32::MAX {
        i32::MAX as int
    } else if v / 16 < i32::MIN {
        i32::MIN as int
    } else {
        v / 16
    }
}

/// The place within its chunk of the world coordinate `v`: `v` modulo 16, or the edge
/// of the last chunk on the side where `v` lies beyond every chunk.
pub open spec fn axis_offset(v: int) -> int {
    if v / 16 > i32::MAX {
        15
    } else if v / 16 < i32::MIN {
        0
    } else {
        v % 16
    }
}

/// The address of the block at the world coordinates `(x, y, z)`: the indices of its
/// chunk, and its place in the chunk.
pub open spec fn decompose(x: int, y: int, z: int) -> ((int, int), (int, int, int)) {
    ((axis_chunk(x), axis_chunk(z)), (axis_offset(x), y, axis_offset(z)))
}

/// The world coordinates of the block with the given address.
pub open spec fn compose(address: ((int, int), (int, int, int))) -> (int, int, int) {
    (address.0.0 * 16 + address.1.0, address.1.1, address.0.1 * 16 + address.1.2)
}

/// Taking an addressable block's coordinates apart and putting them together again
/// gives the same coordinates.
pub proof fn lemma_round_trip(x: int, y: int, z: int)
    requires
        addressable(x),
        addressable(z),
    ensures
        compose(decompose(x, y, z)) == (x, y, z),
{
}

/// A coordinate beyond the last chunk is moved to the last block of the last chunk,
/// one before the first chunk to the first block of the first: the chunk index stops
/// at the end of its 32 bits and the place in the chunk at its edge, so that the
/// address is that of the nearest addressable block.
pub proof fn lemma_saturation(v: int)
    ensures
        v > max_coordinate() ==> axis_chunk(v) == i32::MAX && axis_offset(v) == 15,
        v < min_coordinate() ==> axis_chunk(v) == i32::MIN && axis_offset(v) == 0,
        i32::MIN <= axis_chunk(v) <= i32::MAX,
        0 <= axis_offset(v) < 16,
        axis_chunk(v) * 16 + axis_offset(v) == (if v > max_coordinate() {
            max_coordinate()
        } else if v < min_coordinate() {
            min_coordinate()
        } else {
            v
        }),
{
}

/// `glam::U8Vec3`, the vector of three bytes of the `glam` crate, with its public
/// fields `x`, `y` and `z` as `glam` declares them.
#[verifier::external_type_specification]
pub struct ExU8Vec3(glam::U8Vec3);

/// Assumed of `glam::u8vec3`, not proved: it makes the vector whose fields are the
/// three arguments, in order.
pub assume_specification[ glam::u8vec3 ](x: u8, y: u8, z: u8) -> (v: glam::U8Vec3)
    ensures
        v.x == x,
        v.y == y,
        v.z == z,
;

/// The index of a chunk: a column of the world sixteen blocks wide along `x` and `z`.
#[derive(Clone, Copy, Debug, Hash, PartialEq, Eq, Structural)]
pub struct ChunkCoord {
    x: i32,
    z: i32,
}

impl View for ChunkCoord {
    type V = (int, int);

    /// The chunk's indices along `x` and `z`.
    closed spec fn view(&self) -> (int, int) {
        (self.x as int, self.z as int)
    }
}

impl ChunkCoord {
    /// The chunk at the origin.
    pub fn zero() -> (r: Self)
        ensures
            r@ == (0int, 0int),
    {
        Self::from_xz(0, 0)
    }

    /// The chunk with the given indices.
    pub fn from_xz(x: i32, z: i32) -> (r: Self)
        ensures
            r@ == (x as int, z as int),
    {
        Self { x, z }
    }

    /// The indices fit in 32 bits.
    pub proof fn lemma_view(self)
        ensures
            i32::MIN <= self@.0 <= i32::MAX,
            i32::MIN <= self@.1 <= i32::MAX,
    {
    }

    /// The world `x` of the chunk's first block.
    pub fn x(&self) -> (r: i48)
        ensures
            r@ == self@.0 * 16,
    {
        i48::from(self.x) * i48::new_unchecked(16)
    }

    /// The world `z` of the chunk's first block.
    pub fn z(&self) -> (r: i48)
        ensures
            r@ == self@.1 * 16,
    {
        i48::from(self.z) * i48::new_unchecked(16)
    }
}

/// The bit-level facts behind the packed byte: two numbers below sixteen share a byte,
/// one in each half.
proof fn lemma_nibbles(x: u8, z: u8)
    ensures
        x >> 4 == x / 16,
        x & 0x0F == x % 16,
        x < 16 && z < 16 ==> (x << 4) | z == x * 16 + z,
{
    assert(x >> 4 == x / 16) by (bit_vector);
    assert(x & 0x0F == x % 16) by (bit_vector);
    assert(x < 16 && z < 16 ==> (x << 4) | z == x * 16 + z) by (bit_vector);
}

/// A place in a chunk's ground plan: `x` and `z`, each below sixteen, packed into one
/// byte with `x` in the high half.
#[derive(Clone, Copy, Debug, Hash, PartialEq, Eq, Structural)]
pub struct ChunkRelativeXZ {
    xz: u8,
}

impl View for ChunkRelativeXZ {
    type V = (int, int);

    /// The place along `x` and along `z`.
    closed spec fn view(&self) -> (int, int) {
        ((self.xz / 16) as int, (self.xz % 16) as int)
    }
}

impl ChunkRelativeXZ {
    /// The chunk's first corner.
    pub fn zero() -> (r: Self)
        ensures
            r@ == (0int, 0int),
    {
        Self::from_xz(0, 0)
    }

    /// The place `(x, z)`. Both lie within the chunk.
    pub fn from_xz(x: u8, z: u8) -> (r: Self)
        requires
            x < 16,
            z < 16,
        ensures
            r@ == (x as int, z as int),
    {
        proof {
            lemma_nibbles(x, z);
        }
        let xz = (x << 4) | z;
        Self { xz }
    }

    /// Both places lie within the chunk.
    pub proof fn lemma_view(self)
        ensures
            0 <= self@.0 < 16,
            0 <= self@.1 < 16,
    {
    }

    /// The place along `x`.
    pub fn x(self) -> (r: u8)
        ensures
            r == self@.0,
            r < 16,
    {
        proof {
            lemma_nibbles(self.xz, 0);
        }
        self.xz >> 4
    }

    /// The place along `z`.
    pub fn z(self) -> (r: u8)
        ensures
            r == self@.1,
            r < 16,
    {
        proof {
            lemma_nibbles(self.xz, 0);
        }
        self.xz & 0x0F
    }
}

/// The place of a block in its chunk: the place in the ground plan, and the height.
#[derive(Clone, Copy, Debug, Hash, PartialEq, Eq, Structural)]
pub struct BlockCoord {
    xz: ChunkRelativeXZ,
    y: u8,
}

impl View for BlockCoord {
    type V = (int, int, int);

    /// The place along `x`, the height, and the place along `z`.
    closed spec fn view(&self) -> (int, int, int) {
        (self.xz@.0, self.y as int, self.xz@.1)
    }
}

impl BlockCoord {
    /// The chunk's lowest first corner.
    pub fn zero() -> (r: Self)
        ensures
            r@ == (0int, 0int, 0int),
    {
        Self::from_xyz(0, 0, 0)
    }

    /// The place `(x, z)` at height `y`. `x` and `z` lie within the chunk.
    pub fn from_xyz(x: u8, y: u8, z: u8) -> (r: Self)
        requires
            x < 16,
            z < 16,
        ensures
            r@ == (x as int, y as int, z as int),
    {
        Self { xz: ChunkRelativeXZ::from_xz(x, z), y }
    }

    /// The places along `x` and `z` lie within the chunk, the height within a byte.
    pub proof fn lemma_view(self)
        ensures
            0 <= self@.0 < 16,
            0 <= self@.1 < 256,
            0 <= self@.2 < 16,
    {
    }

    /// The place along `x`.
    pub fn x(self) -> (r: u8)
        ensures
            r == self@.0,
            r < 16,
    {
        self.xz.x()
    }

    /// The place along `z`.
    pub fn z(self) -> (r: u8)
        ensures
            r == self@.2,
            r < 16,
    {
        self.xz.z()
    }

    /// The height.
    pub fn y(self) -> (r: u8)
        ensures
            r == self@.1,
    {
        self.y
    }

    /// The three components as a vector of bytes.
    pub fn xyz(self) -> (r: glam::U8Vec3)
        ensures
            (r.x as int, r.y as int, r.z as int) == self@,
    {
        glam::u8vec3(self.x(), self.y(), self.z())
    }
}

/// The address of a block in the world: its chunk, and its place in the chunk.
#[derive(Clone, Copy, Debug, Hash, PartialEq, Eq, Structural)]
pub struct AbsoluteBlockCoord {
    chunk: ChunkCoord,
    block_coord: BlockCoord,
}

impl View for AbsoluteBlockCoord {
    type V = ((int, int), (int, int, int));

    /// The chunk's indices, and the place in the chunk.
    closed spec fn view(&self) -> ((int, int), (int, int, int)) {
        (self.chunk@, self.block_coord@)
    }
}

impl AbsoluteBlockCoord {
    /// The address of the block at the origin.
    pub fn zero() -> (r: Self)
        ensures
            r@ == decompose(0, 0, 0),
    {
        Self::from_xyz(i48::new_unchecked(0), 0, i48::new_unchecked(0))
    }

    /// The chunk index and the place in the chunk of one world coordinate.
    pub fn separate(coord: i48) -> (r: (i32, u8))
        ensures
            r.0 == axis_chunk(coord@),
            r.1 == axis_offset(coord@),
    {
        let num = coord.as_i64();
        let chunk = num.div_euclid(16);
        let rel = num.rem_euclid(16) as u8;
        if chunk > i32::MAX as i64 {
            return (i32::MAX, 15);
        }
        if chunk < i32::MIN as i64 {
            return (i32::MIN, 0);
        }
        (chunk as i32, rel)
    }

    /// The address of the block at the world coordinates `(x, y, z)`. Where `x` or `z`
    /// lies beyond the chunks that 32 bits can index, that coordinate is moved to the
    /// nearest one that can be addressed; the other one is not touched by this.
    pub fn from_xyz(x: i48, y: u8, z: i48) -> (r: Self)
        ensures
            r@ == decompose(x@, y as int, z@),
            addressable(x@) && addressable(z@) ==> compose(r@) == (x@, y as int, z@),
    {
        let (x, x_rest) = Self::separate(x);
        let (z, z_rest) = Self::separate(z);
        Self {
            chunk: ChunkCoord::from_xz(x, z),
            block_coord: BlockCoord::from_xyz(x_rest, y, z_rest),
        }
    }

    /// The address is that of an addressable block.
    pub proof fn lemma_view(self)
        ensures
            addressable(compose(self@).0),
            addressable(compose(self@).2),
            0 <= compose(self@).1 < 256,
            decompose(compose(self@).0, compose(self@).1, compose(self@).2) == self@,
    {
        self.chunk.lemma_view();
        self.block_coord.lemma_view();
    }

    /// The world `x` of the block.
    pub fn x(&self) -> (r: i48)
        ensures
            r@ == compose(self@).0,
    {
        self.chunk.x() + i48::from(self.block_coord.x())
    }

    /// The world `z` of the block.
    pub fn z(&self) -> (r: i48)
        ensures
            r@ == compose(self@).2,
    {
        self.chunk.z() + i48::from(self.block_coord.z())
    }

    /// The height of the block.
    pub fn y(&self) -> (r: u8)
        ensures
            r == compose(self@).1,
    {
        self.block_coord.y()
    }

    /// The world coordinates of the block.
    pub fn xyz(&self) -> (r: (i48, u8, i48))
        ensures
            (r.0@, r.1 as int, r.2@) == compose(self@),
    {
        (self.x(), self.y(), self.z())
    }
}

/// A position in continuous space: three fixed-point coordinates.
#[derive(Clone, Copy, Debug, PartialEq, Eq, Structural)]
pub struct AbsoluteCoord {
    x: FixedPoint,
    y: FixedPoint,
    z: FixedPoint,
}

impl View for AbsoluteCoord {
    type V = (int, int, int);

    /// The three coordinates, each as its count of steps of `1/65536`.
    closed spec fn view(&self) -> (int, int, int) {
        (self.x@, self.y@, self.z@)
    }
}

impl AbsoluteCoord {
    /// The position with the given coordinates, in counts of steps.
    pub closed spec fn spec_from_xyz(x: int, y: int, z: int) -> AbsoluteCoord {
        AbsoluteCoord { x: FixedPoint(x as i64), y: FixedPoint(y as i64), z: FixedPoint(z as i64) }
    }

    /// A position is fixed by its coordinates.
    pub proof fn lemma_view(self)
        ensures
            AbsoluteCoord::spec_from_xyz(self@.0, self@.1, self@.2) == self,
            i64::MIN <= self@.0 <= i64::MAX,
            i64::MIN <= self@.1 <= i64::MAX,
            i64::MIN <= self@.2 <= i64::MAX,
    {
    }

    /// The origin.
    pub fn zero() -> (r: Self)
        ensures
            r@ == (0int, 0int, 0int),
    {
        Self::from_xyz(FixedPoint::zero(), FixedPoint::zero(), FixedPoint::zero())
    }

    /// The position that the vector points to.
    pub fn from_xyz_vec(xyz: FixedPointVec3) -> (r: Self)
        ensures
            r@ == xyz@,
    {
        Self::from_xyz(xyz.x, xyz.y, xyz.z)
    }

    /// The position with the given coordinates.
    pub fn from_xyz(x: FixedPoint, y: FixedPoint, z: FixedPoint) -> (r: Self)
        ensures
            r@ == (x@, y@, z@),
    {
        Self { y, x, z }
    }

    /// The coordinate along `x`.
    pub fn x(&self) -> (r: FixedPoint)
        ensures
            r@ == self@.0,
    {
        self.x
    }

    /// The coordinate along `z`.
    pub fn z(&self) -> (r: FixedPoint)
        ensures
            r@ == self@.2,
    {
        self.z
    }

    /// The height.
    pub fn y(&self) -> (r: FixedPoint)
        ensures
            r@ == self@.1,
    {
        self.y
    }

    /// The three coordinates as a vector.
    pub fn xyz(self) -> (r: FixedPointVec3)
        ensures
            r@ == self@,
    {
        FixedPointVec3 { x: self.x(), y: self.y(), z: self.z() }
    }
}

impl AddSpecImpl for AbsoluteCoord {
    open spec fn obeys_add_spec() -> bool {
        true
    }

    open spec fn add_req(self, rhs: AbsoluteCoord) -> bool {
        true
    }

    open spec fn add_spec(self, rhs: AbsoluteCoord) -> AbsoluteCoord {
        AbsoluteCoord::spec_from_xyz(
            saturate(self@.0 + rhs@.0),
            saturate(self@.1 + rhs@.1),
            saturate(self@.2 + rhs@.2),
        )
    }
}

impl Add for AbsoluteCoord {
    type Output = AbsoluteCoord;

    /// The position moved by `rhs`: the sum coordinate by coordinate, each saturated.
    fn add(self, rhs: AbsoluteCoord) -> (r: AbsoluteCoord)
        ensures
            r@ == (
                saturate(self@.0 + rhs@.0),
                saturate(self@.1 + rhs@.1),
                saturate(self@.2 + rhs@.2),
            ),
    {
        let mut vec = self.xyz();
        vec.x = vec.x + rhs.x();
        vec.y = vec.y + rhs.y();
        vec.z = vec.z + rhs.z();
        Self::from_xyz(vec.x, vec.y, vec.z)
    }
}

impl AddAssign for AbsoluteCoord {
    /// Moves the position by `rhs`.
    fn add_assign(&mut self, rhs: AbsoluteCoord)
        ensures
            final(self)@ == (
                saturate(old(self)@.0 + rhs@.0),
                saturate(old(self)@.1 + rhs@.1),
                saturate(old(self)@.2 + rhs@.2),
            ),
    {
        *self = (*self) + rhs
    }
}

} // verus!
