use std::mem::size_of;
use voxel_maths::coords::AbsoluteBlockCoord;
use voxel_maths::coords::AbsoluteCoord;
use voxel_maths::coords::BlockCoord;
use voxel_maths::coords::ChunkCoord;
use voxel_maths::coords::ChunkRelativeXZ;
use voxel_maths::fixed_point::FixedPoint;
use voxel_maths::i48_int::i48;
use voxel_maths::i48_int::MAX;
use voxel_maths::i48_int::MIN;
use voxel_maths::FixedPointVec3;
use voxel_maths::I48Vec3;

const FIRST: i64 = i32::MIN as i64 * 16;
const LAST: i64 = i32::MAX as i64 * 16 + 15;

#[test]
fn the_packed_address_is_smaller_than_three_coordinates() {
    assert!(size_of::<AbsoluteBlockCoord>() < size_of::<(i48, u8, i48)>());
    assert!(size_of::<AbsoluteBlockCoord>() < size_of::<I48Vec3>());
    assert_eq!(size_of::<ChunkRelativeXZ>(), 1);
    assert_eq!(size_of::<BlockCoord>(), 2);
    assert_eq!(size_of::<ChunkCoord>(), 8);
}

#[test]
fn chunks_are_sixteen_wide() {
    assert_eq!(ChunkCoord::from_xz(0, 0), ChunkCoord::zero());
    assert_eq!(ChunkCoord::from_xz(3, -2).x().as_i64(), 48);
    assert_eq!(ChunkCoord::from_xz(3, -2).z().as_i64(), -32);
    assert_eq!(ChunkCoord::from_xz(i32::MAX, i32::MIN).x().as_i64(), i32::MAX as i64 * 16);
    assert_eq!(ChunkCoord::from_xz(i32::MAX, i32::MIN).z().as_i64(), FIRST);
}

#[test]
fn places_in_a_chunk_pack_into_a_byte() {
    for x in 0..16u8 {
        for z in 0..16u8 {
            let place = ChunkRelativeXZ::from_xz(x, z);
            assert_eq!(place.x(), x);
            assert_eq!(place.z(), z);
            let block = BlockCoord::from_xyz(x, 200, z);
            assert_eq!(block.x(), x);
            assert_eq!(block.y(), 200);
            assert_eq!(block.z(), z);
        }
    }
    assert_eq!(ChunkRelativeXZ::zero(), ChunkRelativeXZ::from_xz(0, 0));
    assert_eq!(BlockCoord::zero(), BlockCoord::from_xyz(0, 0, 0));
}

#[test]
fn a_block_s_place_as_a_vector() {
    let block = BlockCoord::from_xyz(3, 255, 15);
    assert_eq!(block.xyz(), glam::U8Vec3::new(3, 255, 15));
    assert_eq!(block.xyz().x, 3);
    assert_eq!(block.xyz().y, 255);
    assert_eq!(block.xyz().z, 15);
}

#[test]
fn coordinates_round_trip_through_the_address() {
    let samples = [
        0i64, 1, 15, 16, 17, 31, -1, -15, -16, -17, -32, 1_000_003, -1_000_003, FIRST, FIRST + 1,
        LAST - 1, LAST,
    ];
    for &x in &samples {
        for &z in &samples {
            let address =
                AbsoluteBlockCoord::from_xyz(i48::new(x).unwrap(), 77, i48::new(z).unwrap());
            let (x_out, y_out, z_out) = address.xyz();
            assert_eq!((x_out.as_i64(), y_out, z_out.as_i64()), (x, 77, z));
            assert_eq!(address.x().as_i64(), x);
            assert_eq!(address.y(), 77);
            assert_eq!(address.z().as_i64(), z);
        }
    }
}

#[test]
fn negative_coordinates_fall_into_chunks_by_euclidean_division() {
    let n = |x: i64| i48::new(x).unwrap();
    assert_eq!(AbsoluteBlockCoord::separate(n(-1)), (-1, 15));
    assert_eq!(AbsoluteBlockCoord::separate(n(-16)), (-1, 0));
    assert_eq!(AbsoluteBlockCoord::separate(n(-17)), (-2, 15));
    assert_eq!(AbsoluteBlockCoord::separate(n(0)), (0, 0));
    assert_eq!(AbsoluteBlockCoord::separate(n(15)), (0, 15));
    assert_eq!(AbsoluteBlockCoord::separate(n(16)), (1, 0));
    assert_eq!(AbsoluteBlockCoord::separate(n(LAST)), (i32::MAX, 15));
    assert_eq!(AbsoluteBlockCoord::separate(n(FIRST)), (i32::MIN, 0));
}

#[test]
fn coordinates_beyond_the_chunks_saturate() {
    let n = |x: i64| i48::new(x).unwrap();
    assert_eq!(AbsoluteBlockCoord::separate(n(LAST + 1)), (i32::MAX, 15));
    assert_eq!(AbsoluteBlockCoord::separate(n(LAST + 6)), (i32::MAX, 15));
    assert_eq!(AbsoluteBlockCoord::separate(n(MAX)), (i32::MAX, 15));
    assert_eq!(AbsoluteBlockCoord::separate(n(FIRST - 1)), (i32::MIN, 0));
    assert_eq!(AbsoluteBlockCoord::separate(n(FIRST - 6)), (i32::MIN, 0));
    assert_eq!(AbsoluteBlockCoord::separate(n(MIN)), (i32::MIN, 0));

    let far = AbsoluteBlockCoord::from_xyz(n(MAX), 9, n(MIN));
    assert_eq!(far.x().as_i64(), LAST);
    assert_eq!(far.y(), 9);
    assert_eq!(far.z().as_i64(), FIRST);

    // each axis saturates on its own
    let mixed = AbsoluteBlockCoord::from_xyz(n(MAX), 9, n(-5));
    assert_eq!(mixed.x().as_i64(), LAST);
    assert_eq!(mixed.z().as_i64(), -5);
    assert_eq!(mixed, AbsoluteBlockCoord::from_xyz(n(LAST), 9, n(-5)));
    assert_eq!(AbsoluteBlockCoord::zero(), AbsoluteBlockCoord::from_xyz(n(0), 0, n(0)));
}

#[test]
fn continuous_positions_add_component_by_component() {
    let a = AbsoluteCoord::from_xyz(FixedPoint(1), FixedPoint(2), FixedPoint(3));
    assert_eq!(a.x(), FixedPoint(1));
    assert_eq!(a.y(), FixedPoint(2));
    assert_eq!(a.z(), FixedPoint(3));
    let vec = FixedPointVec3::new(FixedPoint(10), FixedPoint(i64::MAX), FixedPoint(i64::MIN));
    let b = AbsoluteCoord::from_xyz_vec(vec);
    assert_eq!(b.xyz(), vec);
    let sum = a + b;
    assert_eq!(sum.x(), FixedPoint(11));
    assert_eq!(sum.y(), FixedPoint(i64::MAX));
    assert_eq!(sum.z(), FixedPoint(i64::MIN + 3));
    let mut c = a;
    c += b;
    assert_eq!(c, sum);
    c += AbsoluteCoord::from_xyz(FixedPoint(0), FixedPoint(0), FixedPoint(i64::MIN));
    assert_eq!(c.z(), FixedPoint(i64::MIN));
    assert_eq!(
        AbsoluteCoord::zero(),
        AbsoluteCoord::from_xyz(FixedPoint(0), FixedPoint(0), FixedPoint(0))
    );
}
