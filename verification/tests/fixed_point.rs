use voxel_maths::fixed_point::FixedPoint;
use voxel_maths::fixed_point::Fract;
use voxel_maths::i48_int::i48;
use voxel_maths::i48_int::MAX;
use voxel_maths::i48_int::MIN;
use voxel_maths::FixedPointVec3;
use voxel_maths::FractVec3;

fn fixed_from_f32(float: f32) -> FixedPoint {
    FixedPoint((float * 65536.0) as i64)
}

fn fract_from_f32(float: f32) -> Fract {
    Fract((float * 65536.0) as u16)
}

#[test]
fn test_fmt() {
    assert_eq!(Fract(8000).to_string(), "0.1220703125");
    assert_eq!(Fract(32768).to_string(), "0.5");
    assert_eq!(Fract(1).to_string(), "0.0000152587890625");
    assert_eq!(Fract(65535).to_string(), "0.9999847412109375");
    assert_eq!(Fract(0).to_string(), "0.0");
    assert_eq!(fixed_from_f32(1.5).to_string(), "1.5");
    assert_eq!(fixed_from_f32(1.5).format(10, false, Some(4)), "1.5000");
}

#[test]
fn test_arithmetic() {
    assert_eq!(
        FixedPoint::from_int(i48::new(2).unwrap()) / FixedPoint::from_fract(Fract::half()),
        FixedPoint::from_int(i48::new(4).unwrap())
    )
}

#[test]
fn test_fixed_float_to_from_raw() {
    let integer = i48::from_bits(123456).unwrap();
    let fractional = fract_from_f32(0.5);
    let ff = FixedPoint::from_raw(integer, fractional);
    let (int_out, frac_out) = ff.to_raw();
    assert_eq!(integer, int_out);
    assert_eq!(fractional, frac_out);
}

#[test]
fn test_fixed_float_is_negative() {
    let neg = fixed_from_f32(-10.25);
    let pos = fixed_from_f32(3.75);
    assert!(neg.is_negative());
    assert!(!pos.is_negative());
}

#[test]
fn reciprocals_round_down() {
    assert_eq!(Fract::recip(2), Fract(32768));
    assert_eq!(Fract::recip(3), Fract(21845));
    assert_eq!(Fract::recip(4), Fract(16384));
    assert_eq!(Fract::recip(65535), Fract(1));
    assert_eq!(Fract::half(), Fract(0x8000));
    assert_eq!(Fract::zero(), Fract(0));
}

#[test]
fn fraction_arithmetic() {
    assert_eq!(Fract(40000) + Fract(40000), FixedPoint(80000));
    assert_eq!(Fract(1) - Fract(2), FixedPoint(-1));
    assert_eq!(Fract(32768) * Fract(32768), Fract(16384));
    assert_eq!(Fract(65535) * Fract(65535), Fract(65534));
    assert_eq!(Fract(1) * Fract(1), Fract(0));
    assert_eq!(Fract(32768) / Fract(16384), FixedPoint(2 * 65536));
    assert_eq!(Fract(16384) / Fract(32768), FixedPoint(0));
    assert_eq!(Fract(65535) / Fract(1), FixedPoint(65535 * 65536));
}

#[test]
fn digits_stop_when_nothing_is_left() {
    assert_eq!(Fract(32768).fmt_fractional(10, false, None), "5");
    assert_eq!(Fract(32768).fmt_fractional(2, false, None), "1");
    assert_eq!(Fract(1).fmt_fractional(2, false, None), "0000000000000001");
    assert_eq!(Fract(1).fmt_fractional(16, false, None), "0001");
    assert_eq!(Fract(0xABCD).fmt_fractional(16, false, None), "abcd");
    assert_eq!(Fract(0xABCD).fmt_fractional(16, true, None), "ABCD");
    assert_eq!(Fract(0xAB00).fmt_fractional(16, true, None), "AB");
    assert_eq!(Fract(8192).fmt_fractional(8, false, None), "1");
    assert_eq!(Fract(1).fmt_fractional(8, false, None), "000004");
    assert_eq!(Fract(49152).fmt_fractional(4, false, None), "3");
    assert_eq!(Fract(32768).fmt_fractional(6, false, None), "3");
}

#[test]
fn a_limit_cuts_short_and_pads_but_never_rounds() {
    assert_eq!(Fract(8000).fmt_fractional(10, false, Some(4)), "1220");
    assert_eq!(Fract(65535).fmt_fractional(10, false, Some(3)), "999");
    assert_eq!(Fract(32768).fmt_fractional(10, false, Some(4)), "5000");
    assert_eq!(Fract(32768).fmt_fractional(10, false, Some(1)), "5");
    assert_eq!(Fract(32768).fmt_fractional(10, false, Some(0)), "");
    assert_eq!(Fract(8000).fmt_fractional(10, false, Some(12)), "122070312500");
    assert_eq!(Fract(0).fmt_fractional(10, false, Some(4)), "0000");
    assert_eq!(Fract(0).fmt_fractional(10, false, Some(0)), "");
    assert_eq!(Fract(0).fmt_fractional(10, false, None), "0");
    assert_eq!(Fract(0).fmt_fractional(3, false, None), "0");
}

#[test]
fn odd_radices_are_written_up_to_a_limit() {
    // 1/3 = 0.1 in base 3, but 21845/65536 falls just short of it
    assert_eq!(Fract(21845).fmt_fractional(3, false, Some(6)), "022222");
    assert_eq!(Fract(32768).fmt_fractional(3, false, Some(5)), "11111");
    assert_eq!(Fract(32768).fmt_fractional(15, true, Some(3)), "777");
    assert_eq!(Fract(65535).fmt_fractional(11, false, Some(2)), "aa");
}

#[test]
fn fractions_written_in_each_radix() {
    assert_eq!(Fract(0x8000).format(2, false, None), "0.1");
    assert_eq!(Fract(0x2000).format(8, false, None), "0.1");
    assert_eq!(Fract(0x1000).format(16, false, None), "0.1");
    assert_eq!(Fract(0xF000).format(16, false, None), "0.f");
    assert_eq!(Fract(0xF000).format(16, true, None), "0.F");
    assert_eq!(Fract(0xF000).format(16, true, Some(3)), "0.F00");
    assert_eq!(Fract(0).format(16, true, Some(3)), "0.000");
    assert_eq!(Fract(0).format(16, true, None), "0.0");
}

#[test]
fn packing_round_trips() {
    for int in [0, 1, -1, MAX, MIN, 123_456, -123_456] {
        for frac in [0u16, 1, 0x8000, 0xFFFF, 12345] {
            let fixed = FixedPoint::from_raw(i48::new(int).unwrap(), Fract(frac));
            assert_eq!(fixed.0, int * 65536 + frac as i64);
            let (int_out, frac_out) = fixed.to_raw();
            assert_eq!(int_out.as_i64(), int);
            assert_eq!(frac_out, Fract(frac));
            assert_eq!(fixed.integer().as_i64(), int);
            assert_eq!(fixed.fract(), Fract(frac));
        }
    }
}

#[test]
fn parts_of_a_negative_number() {
    // -1.5 is -2 + 0.5
    let fixed = FixedPoint(-98304);
    assert_eq!(fixed.integer().as_i64(), -2);
    assert_eq!(fixed.fract(), Fract(0x8000));
    assert!(fixed.is_negative());
    assert!(!FixedPoint(0).is_negative());
    assert_eq!(FixedPoint::from_int(i48::new(-3).unwrap()), FixedPoint(-3 * 65536));
    assert_eq!(FixedPoint::from_int(i48::new(MIN).unwrap()), FixedPoint(i64::MIN));
    assert_eq!(FixedPoint::from_fract(Fract(0xFFFF)), FixedPoint(0xFFFF));
    assert_eq!(FixedPoint::from(Fract(7)), FixedPoint(7));
}

#[test]
fn extremes() {
    assert_eq!(FixedPoint::zero(), FixedPoint(0));
    assert_eq!(FixedPoint::min_value(), FixedPoint(i64::MIN));
    assert_eq!(FixedPoint::max_value(), FixedPoint(i64::MAX));
    assert_eq!(FixedPoint::max_value().integer().as_i64(), MAX);
    assert_eq!(FixedPoint::min_value().integer().as_i64(), MIN);
    assert_eq!(FixedPoint::max_value().fract(), Fract(0xFFFF));
}

#[test]
fn addition_and_subtraction_saturate() {
    let max = FixedPoint::max_value();
    let min = FixedPoint::min_value();
    let one = FixedPoint(65536);
    assert_eq!(max + one, max);
    assert_eq!(max + max, max);
    assert_eq!(min + FixedPoint(-1), min);
    assert_eq!(min + min, min);
    assert_eq!(min - one, min);
    assert_eq!(max - FixedPoint(-1), max);
    assert_eq!(max - min, max);
    assert_eq!(min - max, min);
    assert_eq!(FixedPoint(0) - min, max);
    assert_eq!(max + min, FixedPoint(-1));
    assert_eq!(FixedPoint(3) + FixedPoint(4), FixedPoint(7));
    assert_eq!(FixedPoint(3) - FixedPoint(4), FixedPoint(-1));
    let mut acc = max;
    acc += one;
    assert_eq!(acc, max);
    acc -= max;
    assert_eq!(acc, FixedPoint(0));
    acc -= max;
    acc -= max;
    assert_eq!(acc, min);
}

#[test]
fn multiplication_rescales_and_saturates() {
    let one_and_a_half = FixedPoint(98304);
    let two = FixedPoint(131072);
    assert_eq!(one_and_a_half * two, FixedPoint(3 * 65536));
    assert_eq!(one_and_a_half * one_and_a_half, FixedPoint(147456));
    assert_eq!(FixedPoint(1) * FixedPoint(1), FixedPoint(0));
    assert_eq!(FixedPoint(-1) * FixedPoint(1), FixedPoint(0));
    assert_eq!(FixedPoint(-98304) * FixedPoint(32768), FixedPoint(-49152));
    assert_eq!(FixedPoint(-3) * FixedPoint(32768), FixedPoint(-1));
    assert_eq!(FixedPoint::max_value() * two, FixedPoint::max_value());
    assert_eq!(FixedPoint::min_value() * two, FixedPoint::min_value());
    assert_eq!(FixedPoint::min_value() * FixedPoint::min_value(), FixedPoint::max_value());
    assert_eq!(FixedPoint::max_value() * FixedPoint::min_value(), FixedPoint::min_value());
    assert_eq!(FixedPoint::max_value() * FixedPoint(65536), FixedPoint::max_value());
    let mut acc = two;
    acc *= one_and_a_half;
    assert_eq!(acc, FixedPoint(3 * 65536));
}

#[test]
fn division_drops_the_fraction_of_the_quotient() {
    let three = FixedPoint(3 * 65536);
    let two = FixedPoint(2 * 65536);
    // 3 / 2 is 1, not 1.5
    assert_eq!(three / two, FixedPoint(65536));
    assert_eq!(FixedPoint(-3 * 65536) / two, FixedPoint(-65536));
    assert_eq!(FixedPoint(1) / two, FixedPoint(0));
    assert_eq!(FixedPoint::max_value() / FixedPoint(1), FixedPoint::max_value());
    assert_eq!(FixedPoint::min_value() / FixedPoint(1), FixedPoint::min_value());
    assert_eq!(FixedPoint::max_value() / FixedPoint(-1), FixedPoint::min_value());
    assert_eq!(FixedPoint::min_value() / FixedPoint(2), FixedPoint::min_value());
    let mut acc = three;
    acc /= two;
    assert_eq!(acc, FixedPoint(65536));
}

#[test]
fn order_is_that_of_the_raw_words() {
    assert!(FixedPoint(-1) < FixedPoint(0));
    assert!(FixedPoint(1).const_gt(FixedPoint(0)));
    assert!(FixedPoint(1).const_ge(FixedPoint(1)));
    assert!(FixedPoint(-5).const_lt(FixedPoint(-4)));
    assert!(FixedPoint(-5).const_le(FixedPoint(-5)));
    assert!(!FixedPoint(-5).const_gt(FixedPoint(-5)));
    assert!(Fract(1) < Fract(2));
    assert!(Fract(2).const_gt(Fract(1)));
    assert!(Fract(2).const_ge(Fract(2)));
    assert!(Fract(1).const_lt(Fract(2)));
    assert!(Fract(1).const_le(Fract(1)));
    assert_eq!(FixedPoint(3).max(FixedPoint(-3)), FixedPoint(3));
    let mut values = vec![FixedPoint(2), FixedPoint(-7), FixedPoint(0)];
    values.sort();
    assert_eq!(values, vec![FixedPoint(-7), FixedPoint(0), FixedPoint(2)]);
}

#[test]
fn numbers_written_out() {
    assert_eq!(FixedPoint(0).to_string(), "0.0");
    assert_eq!(FixedPoint(65536).to_string(), "1.0");
    assert_eq!(FixedPoint(-65536).to_string(), "-1.0");
    // the integer part is rounded down: -1.5 is written as -2 and .5
    assert_eq!(FixedPoint(-98304).to_string(), "-2.5");
    assert_eq!(FixedPoint(-98304).integer().to_string(), "-2");
    assert_eq!(FixedPoint(0x000A_8000).format(16, false, None), "a.8");
    assert_eq!(FixedPoint(0x000A_8000).format(16, true, Some(2)), "A.80");
    assert_eq!(FixedPoint(0x0005_4000).format(2, false, None), "101.01");
    assert_eq!(FixedPoint(0x0009_2000).format(8, false, None), "11.1");
    assert_eq!(FixedPoint(-65536).format(16, false, None), "ffffffffffffffff.0");
    assert_eq!(FixedPoint(i64::MAX).format(10, false, Some(2)), "140737488355327.99");
    assert_eq!(FixedPoint(i64::MIN).to_string(), "-140737488355328.0");
    assert_eq!(FixedPoint(98304).format(10, false, Some(0)), "1.");
    assert_eq!(FixedPoint(65536).format(10, false, Some(2)), "1.00");
    assert_eq!(FixedPoint(0).format(10, false, Some(3)), "0.000");
}

#[test]
fn vectors_work_component_by_component() {
    let a = FixedPointVec3::new(FixedPoint(1), FixedPoint(2), FixedPoint(3));
    let b = FixedPointVec3::new(FixedPoint(10), FixedPoint(20), FixedPoint(i64::MAX));
    assert_eq!(a + b, FixedPointVec3::new(FixedPoint(11), FixedPoint(22), FixedPoint(i64::MAX)));
    assert_eq!(
        a - b,
        FixedPointVec3::new(FixedPoint(-9), FixedPoint(-18), FixedPoint(3 - i64::MAX))
    );
    assert_eq!(
        b * FixedPoint(131072),
        FixedPointVec3::new(FixedPoint(20), FixedPoint(40), FixedPoint(i64::MAX))
    );
    let mut c = a;
    c += b;
    assert_eq!(c, a + b);
    c -= b;
    c -= b;
    assert_eq!(c.x, FixedPoint(-9));
    assert_eq!(
        FixedPointVec3::zero(),
        FixedPointVec3::new(FixedPoint(0), FixedPoint(0), FixedPoint(0))
    );
    assert_eq!(
        FixedPointVec3::unit_y(),
        FixedPointVec3::new(FixedPoint(0), FixedPoint(65536), FixedPoint(0))
    );
    assert_eq!(FractVec3::zero(), FractVec3 { x: Fract(0), y: Fract(0), z: Fract(0) });
}
