use ptx_harness::common::{flush_to_zero_f16, flush_to_zero_f32, Comparison, Rounding};
use ptx_harness::cvt::{cvt_f16_f32, cvt_f16_f32_full, cvt_pack_sat, int_to_float, widen_f16, cvt_f32_f32, cvt_f64_f16, cvt_f64_f32, cvt_f64_int, cvt_s32_f32, cvt_u32_f32, f32_to_int, int_convert};
use ptx_harness::transcendental::{check_special, Transcendental};
use ptx_harness::reference::{AddF32, Ex2, FmaF32, MulF32, Rcp, Sqrt, SubF32, Tanh};
use ptx_harness::scalar::{F16, F32, F64};
use ptx_harness::test::TestCommon;
use ptx_harness::testcase::Cvt;
use ptx_harness::floatbits::{
    operand_pair, abs_f32, minmax_f16, e4m3_is_nan_correct, e5m2_is_nan_correct, is_approx_equal, is_float_equal, neg_f32,
    saturate_unit_f32, set_f32, BoolOp, TestpMode,
};

const NAN: u32 = 0x7fc0_0000;
const ONE: u32 = 0x3f80_0000;
const TWO: u32 = 0x4000_0000;
const NEG_ONE: u32 = 0xbf80_0000;
const MIN_SUB: u32 = 0x0000_0001;
const NEG_MAX_SUB: u32 = 0x807f_ffff;

#[test]
fn flush_replaces_subnormals_with_signed_zero() {
    let mut x = MIN_SUB;
    flush_to_zero_f32(&mut x, true);
    assert_eq!(x, 0);
    let mut y = NEG_MAX_SUB;
    flush_to_zero_f32(&mut y, true);
    assert_eq!(y, 0x8000_0000);
    let mut z = NEG_MAX_SUB;
    flush_to_zero_f32(&mut z, false);
    assert_eq!(z, NEG_MAX_SUB);
    let mut n = 0x0080_0000;
    flush_to_zero_f32(&mut n, true);
    assert_eq!(n, 0x0080_0000);
    let mut h = 0x83ffu16;
    flush_to_zero_f16(&mut h, true);
    assert_eq!(h, 0x8000);
}

#[test]
fn flush_twice_equals_once() {
    for v in [MIN_SUB, NEG_MAX_SUB, ONE, NAN, 0, 0x8000_0000] {
        let mut once = v;
        flush_to_zero_f32(&mut once, true);
        let mut twice = once;
        flush_to_zero_f32(&mut twice, true);
        assert_eq!(once, twice);
    }
}

#[test]
fn comparison_symmetry_and_nan() {
    let values = [ONE, TWO, NEG_ONE, 0, 0x8000_0000, NAN, MIN_SUB];
    for a in values {
        for b in values {
            for ftz in [false, true] {
                assert_eq!(
                    Comparison::Ge.cmp_float(a, b, ftz),
                    Comparison::Le.cmp_float(b, a, ftz)
                );
                assert_eq!(
                    Comparison::Gt.cmp_float(a, b, ftz),
                    Comparison::Lt.cmp_float(b, a, ftz)
                );
            }
        }
    }
    for c in [Comparison::Equ, Comparison::Neu, Comparison::Ltu, Comparison::Leu, Comparison::Gtu, Comparison::Geu, Comparison::Nan] {
        assert!(c.cmp_float(NAN, ONE, false));
        assert!(c.cmp_float(ONE, NAN, false));
    }
    assert!(!Comparison::Eq.cmp_float(NAN, NAN, false));
    assert!(!Comparison::Num.cmp_float(ONE, NAN, false));
    assert!(Comparison::Eq.cmp_float(0, 0x8000_0000, false));
    assert!(Comparison::Lt.cmp_float(NEG_ONE, ONE, false));
    assert!(Comparison::Eq.cmp_float(MIN_SUB, 0, true));
    assert!(!Comparison::Eq.cmp_float(MIN_SUB, 0, false));
}

#[test]
fn integer_comparisons() {
    assert!(Comparison::Lo.cmp_int(1, 2));
    assert!(Comparison::Num.cmp_int(1, 2));
    assert!(!Comparison::Nan.cmp_int(1, 2));
    assert!(Comparison::Ge.cmp_int(-1, -1));
    assert_eq!(Comparison::iter_int().len(), 10);
    assert_eq!(Comparison::iter_float().len(), 14);
    assert!(Comparison::Ge.signed());
    assert!(!Comparison::Hs.signed());
    assert_eq!(Comparison::Geu.as_str(), "geu");
}

#[test]
fn rounding_names() {
    assert_eq!(Rounding::Rn.as_ptx(), ".rn");
    assert_eq!(Rounding::Default.as_ptx(), "");
    assert_eq!(Rounding::Rmi.as_str(), "rmi");
    assert!(Rounding::Rpi.is_integer());
    assert!(!Rounding::Rp.is_integer());
    assert_eq!(Rounding::Rz.as_llvm(), 0);
    assert_eq!(Rounding::Default.as_llvm(), 1);
    assert_eq!(Rounding::Rpi.as_llvm(), 2);
    assert_eq!(Rounding::Rm.as_llvm(), 3);
}

#[test]
fn cvt_f32_to_s32_ties_to_even() {
    assert_eq!(cvt_s32_f32(0x4020_0000, Rounding::Rn, false), Some(2));
    assert_eq!(cvt_s32_f32(0x4060_0000, Rounding::Rn, false), Some(4));
    assert_eq!(cvt_s32_f32(0xc020_0000, Rounding::Rni, false), Some(-2));
}

#[test]
fn cvt_directions() {
    // 2.5 and -2.5
    assert_eq!(cvt_s32_f32(0x4020_0000, Rounding::Rz, false), Some(2));
    assert_eq!(cvt_s32_f32(0x4020_0000, Rounding::Rm, false), Some(2));
    assert_eq!(cvt_s32_f32(0x4020_0000, Rounding::Rp, false), Some(3));
    assert_eq!(cvt_s32_f32(0xc020_0000, Rounding::Rm, false), Some(-3));
    assert_eq!(cvt_s32_f32(0xc020_0000, Rounding::Rp, false), Some(-2));
    assert_eq!(cvt_s32_f32(0xc020_0000, Rounding::Rzi, false), Some(-2));
    assert_eq!(cvt_s32_f32(NAN, Rounding::Rn, false), None);
    assert_eq!(cvt_s32_f32(0x7f80_0000, Rounding::Rn, false), Some(i32::MAX));
    assert_eq!(cvt_s32_f32(0xff80_0000, Rounding::Rn, false), Some(i32::MIN));
    assert_eq!(cvt_s32_f32(0x4f80_0000, Rounding::Rn, false), Some(i32::MAX));
    assert_eq!(cvt_u32_f32(NEG_ONE, Rounding::Rn, false), Some(0));
    assert_eq!(cvt_u32_f32(0x4f7f_ffff, Rounding::Rn, false), Some(0xffff_ff00));
    assert_eq!(cvt_s32_f32(MIN_SUB, Rounding::Rp, false), Some(1));
    assert_eq!(cvt_s32_f32(MIN_SUB, Rounding::Rp, true), Some(0));
    assert_eq!(cvt_s32_f32(0x3f00_0000, Rounding::Rn, false), Some(0));
    assert_eq!(cvt_s32_f32(0x3fc0_0000, Rounding::Rn, false), Some(2));
}

#[test]
fn rounding_mode_order() {
    for x in [0x4020_0000u32, 0xc020_0000, 0x3f00_0001, 0xbf7f_ffff, MIN_SUB, 0x4b80_0001] {
        let down = f32_to_int(x, Rounding::Rm, false, i64::MIN as i128, i64::MAX as i128);
        let near = f32_to_int(x, Rounding::Rn, false, i64::MIN as i128, i64::MAX as i128);
        let up = f32_to_int(x, Rounding::Rp, false, i64::MIN as i128, i64::MAX as i128);
        assert!(down <= near && near <= up);
    }
}

#[test]
fn integer_conversions() {
    assert_eq!(int_convert(70000, 16, false, true), 0xffff);
    assert_eq!(int_convert(70000, 16, false, false), 70000 - 65536);
    assert_eq!(int_convert(-1, 16, false, true), 0);
    assert_eq!(int_convert(-1, 32, false, false), 0xffff_ffff);
    assert_eq!(int_convert(0x8000_0000, 32, true, false), -0x8000_0000);
    assert_eq!(int_convert(0x8000_0000, 32, true, true), 0x7fff_ffff);
    assert_eq!(int_convert(-0x1_0000_0000, 64, true, true), -0x1_0000_0000);
}

#[test]
fn abs_neg_and_classes() {
    assert_eq!(abs_f32(NEG_ONE, false), ONE);
    assert_eq!(abs_f32(NEG_MAX_SUB, true), 0);
    assert_eq!(neg_f32(ONE, false), NEG_ONE);
    assert_eq!(neg_f32(MIN_SUB, true), 0x8000_0000);
    assert_eq!(TestpMode::Normal.test(0), 1);
    assert_eq!(TestpMode::Normal.test(MIN_SUB), 0);
    assert_eq!(TestpMode::Subnormal.test(NEG_MAX_SUB), 1);
    assert_eq!(TestpMode::Infinite.test(0xff80_0000), 1);
    assert_eq!(TestpMode::NotANumber.test(NAN), 1);
    assert_eq!(TestpMode::Finite.test(0x7f80_0000), 0);
    assert_eq!(TestpMode::Number.test(0x7f80_0000), 1);
    assert_eq!(TestpMode::Subnormal.as_str(), "subnormal");
}

#[test]
fn set_with_float_destination() {
    assert_eq!(set_f32(Comparison::Lt, ONE, TWO, false, BoolOp::And, true), ONE);
    assert_eq!(set_f32(Comparison::Lt, ONE, TWO, false, BoolOp::Xor, true), 0);
    assert_eq!(set_f32(Comparison::Equ, NAN, TWO, false, BoolOp::Or, false), ONE);
    assert_eq!(BoolOp::Xor.as_str(), "xor");
}

#[test]
fn eight_bit_nan_patterns() {
    assert!(e4m3_is_nan_correct(0x7f));
    assert!(e4m3_is_nan_correct(0xff));
    assert!(!e4m3_is_nan_correct(0x7e));
    assert!(e5m2_is_nan_correct(0x7d));
    assert!(e5m2_is_nan_correct(0xfe));
    assert!(!e5m2_is_nan_correct(0x7c));
}

#[test]
fn ulp_tolerance() {
    assert_eq!(is_float_equal(ONE, ONE + 2, 2), Ok(()));
    assert_eq!(is_float_equal(ONE, ONE + 3, 2), Err(ONE));
    assert_eq!(is_float_equal(NAN, 0x7f80_0001, 0), Ok(()));
}

#[test]
fn approximate_division_with_tiny_divisor_accepts_anything() {
    assert_eq!(is_approx_equal(ONE, 0x0000_0010, 0x7f80_0000, 0x1234_5678), Ok(()));
    assert_eq!(is_approx_equal(ONE, 0x8070_0000, 0, ONE), Ok(()));
    assert_eq!(is_approx_equal(ONE, TWO, 0x3f00_0000, 0x3f00_0003), Err(0x3f00_0000));
    assert_eq!(is_approx_equal(ONE, 0x7f00_0000, 0, 0x8000_0000), Ok(()));
    assert_eq!(is_approx_equal(0x7f80_0000, 0x7f00_0000, NAN, ONE), Err(NAN));
}

#[test]
fn saturate_to_unit_interval() {
    // -5.0 saturates to +0.0
    assert_eq!(saturate_unit_f32(0xc0a0_0000), 0);
    assert_eq!(saturate_unit_f32(NAN), 0);
    assert_eq!(saturate_unit_f32(TWO), ONE);
    assert_eq!(saturate_unit_f32(0x3f00_0000), 0x3f00_0000);
    assert_eq!(saturate_unit_f32(0x8000_0000), 0);
}

#[test]
fn pack_with_saturation() {
    assert_eq!(cvt_pack_sat(300, -5, 0x1234_5678, false), 0x5678_ff00);
    assert_eq!(cvt_pack_sat(-300, 300, 0, true), 0x0000_807f);
    assert_eq!(cvt_pack_sat(-1, 1, 0xffff, true), 0xffff_ff01);
}

#[test]
fn transcendental_special_inputs() {
    use_special();
}

fn use_special() {
    let inf = 0x7f80_0000u32;
    let neg_inf = 0xff80_0000u32;
    assert_eq!(Transcendental::Ex2.special(neg_inf), Some(0));
    assert_eq!(Transcendental::Ex2.special(0x8000_0000), Some(ONE));
    assert_eq!(Transcendental::Ex2.special(ONE), None);
    assert_eq!(Transcendental::Lg2.special(0), Some(neg_inf));
    assert_eq!(Transcendental::Lg2.special(NEG_ONE), Some(NAN));
    assert_eq!(Transcendental::Rsqrt.special(0x8000_0000), Some(neg_inf));
    assert_eq!(Transcendental::Rsqrt.special(inf), Some(0));
    assert_eq!(Transcendental::Rcp.special(neg_inf), Some(0x8000_0000));
    assert_eq!(Transcendental::Tanh.special(neg_inf), Some(NEG_ONE));
    assert_eq!(Transcendental::Cos.special(0x8000_0000), Some(ONE));
    assert_eq!(Transcendental::Sin.special(0x8000_0000), Some(0x8000_0000));
    assert_eq!(check_special(Transcendental::Lg2, MIN_SUB, neg_inf, true), Some(Ok(())));
    assert_eq!(check_special(Transcendental::Lg2, MIN_SUB, neg_inf, false), None);
    assert_eq!(check_special(Transcendental::Rcp, 0, 0x7f80_0001, false), Some(Err(inf)));
    assert_eq!(check_special(Transcendental::Rsqrt, NAN, 0xffff_ffff, false), Some(Ok(())));
}

#[test]
fn half_precision_min_and_max() {
    let one = 0x3c00u16;
    let neg_two = 0xc000u16;
    let nan = 0x7e01u16;
    let sub = 0x0001u16;
    assert_eq!(minmax_f16(one, neg_two, false, false, false), neg_two);
    assert_eq!(minmax_f16(one, neg_two, true, false, false), one);
    assert_eq!(minmax_f16(nan, one, false, false, false), one);
    assert_eq!(minmax_f16(nan, one, false, true, false), 0x7e00);
    assert_eq!(minmax_f16(nan, nan, true, false, false), 0x7e00);
    assert_eq!(minmax_f16(0, 0x8000, false, false, false), 0x8000);
    assert_eq!(minmax_f16(0, 0x8000, true, false, false), 0);
    assert_eq!(minmax_f16(sub, 0, true, false, false), sub);
    assert_eq!(minmax_f16(sub, 0x8000, true, false, true), 0);
}

#[test]
fn reference_checks() {
    let add = AddF32::new(Rounding::Rn, false, false);
    assert_eq!(add.verify(0x8000_0000, F32(0)), Ok(()));
    assert_eq!(add.verify(ONE, F32(TWO)), Err(F32(ONE)));
    let sub = SubF32::new(Rounding::Rz, true, false);
    assert_eq!(sub.verify(MIN_SUB, F32(0)), Ok(()));
    assert_eq!(sub.verify(0x8000_0000, F32(0)), Err(F32(0x8000_0000)));
    let sat = AddF32::new(Rounding::Rn, false, true);
    assert_eq!(sat.verify(TWO, F32(ONE)), Ok(()));
    let mul = MulF32::new(Rounding::Rn, true, false);
    assert_eq!(mul.verify(MIN_SUB, F32(MIN_SUB)), Ok(()));
    let mul_rz = MulF32::new(Rounding::Rz, true, false);
    assert_eq!(mul_rz.verify(MIN_SUB, F32(0)), Ok(()));
    let fma = FmaF32::new(Rounding::Rn, false, false);
    assert_eq!(fma.verify(ONE, F32(ONE + 1)), Ok(()));
    assert_eq!(fma.verify(ONE, F32(ONE + 2)), Err(F32(ONE)));
    let ex2 = Ex2::new(false);
    assert_eq!(ex2.verify(F32(0xff80_0000), F32(0), 0x1234), Ok(()));
    assert_eq!(ex2.verify(F32(ONE), F32(TWO + 2), TWO), Ok(()));
    assert_eq!(ex2.verify(F32(ONE), F32(TWO + 3), TWO), Err(F32(TWO)));
    let rcp = Rcp { approx: true, rnd: Rounding::Default, ftz: true };
    assert_eq!(rcp.verify(F32(MIN_SUB), F32(0x7f80_0000), 0), Ok(()));
    let rcp_rn = Rcp { approx: false, rnd: Rounding::Rn, ftz: false };
    assert_eq!(rcp_rn.verify(F32(TWO), F32(0x3f00_0001), 0x3f00_0000), Err(F32(0x3f00_0000)));
    assert_eq!((Tanh {}).verify_special(F32(0x7f80_0000), F32(ONE)), Some(Ok(())));
    assert_eq!((Tanh {}).verify_special(F32(ONE), F32(ONE)), None);
    let sqrt = Sqrt { approx: true, rnd: Rounding::Default, ftz: false };
    assert_eq!(sqrt.verify_special(F32(NEG_ONE), F32(NAN)), Some(Ok(())));
    assert_eq!(sqrt.verify_special(F32(0x8000_0000), F32(0)), Some(Err(F32(0x8000_0000))));
    let sqrt_rn = Sqrt { approx: false, rnd: Rounding::Rn, ftz: true };
    assert_eq!(sqrt_rn.verify_rounded(MIN_SUB, F32(0)), Ok(()));
}

#[test]
fn half_conversion_matches_round_to_nearest_reference() {
    let mut x: u32 = 0;
    loop {
        let expected = half::f16::from_f32(f32::from_bits(x));
        let got = cvt_f16_f32(x, Rounding::Rn);
        if expected.is_nan() {
            assert!(half::f16::from_bits(got).is_nan(), "{x:#x}");
        } else {
            assert_eq!(got, expected.to_bits(), "{x:#x}");
        }
        match x.checked_add(0x0000_1235) {
            Some(next) => x = next,
            None => break,
        }
    }
}

#[test]
fn half_conversion_directions_and_saturation() {
    // -5.0 saturates to +0.0
    assert_eq!(cvt_f16_f32_full(0xc0a0_0000, Rounding::Rn, false, true), 0);
    assert_eq!(cvt_f16_f32_full(TWO, Rounding::Rn, false, true), 0x3c00);
    assert_eq!(cvt_f16_f32_full(NAN, Rounding::Rn, false, true), 0);
    // 1 + 2^-11 lies halfway between 1.0 and the next half-precision value
    let halfway = 0x3f80_1000;
    assert_eq!(cvt_f16_f32(halfway, Rounding::Rn), 0x3c00);
    assert_eq!(cvt_f16_f32(halfway, Rounding::Rz), 0x3c00);
    assert_eq!(cvt_f16_f32(halfway, Rounding::Rp), 0x3c01);
    assert_eq!(cvt_f16_f32(halfway | 0x8000_0000, Rounding::Rm), 0xbc01);
    // 65536 overflows: infinity when rounding away, the largest finite value otherwise
    let big = 0x4780_0000;
    assert_eq!(cvt_f16_f32(big, Rounding::Rn), 0x7c00);
    assert_eq!(cvt_f16_f32(big, Rounding::Rz), 0x7bff);
    assert_eq!(cvt_f16_f32(big | 0x8000_0000, Rounding::Rp), 0xfbff);
    // the smallest single-precision subnormal rounds up to the smallest half subnormal
    assert_eq!(cvt_f16_f32(MIN_SUB, Rounding::Rp), 0x0001);
    assert_eq!(cvt_f16_f32(MIN_SUB, Rounding::Rn), 0);
}

#[test]
fn integers_to_floats_match_host_rounding_to_nearest() {
    let samples: [i64; 10] = [0, 1, -1, 3, 16_777_217, -16_777_219, 0x7fff_ffff, -0x8000_0000, 0xffff_ffff, 12345];
    for v in samples {
        assert_eq!(int_to_float(v, Rounding::Rn, false), (v as f32).to_bits(), "{v}");
    }
    let mut v: i64 = -0x80_0000;
    while v < 0x80_0000 {
        assert_eq!(int_to_float(v, Rounding::Rn, true) as u16, half::f16::from_f32(v as f32).to_bits(), "{v}");
        v += 977;
    }
}

#[test]
fn integers_to_floats_in_each_direction() {
    // 2^24 + 1 lies between two single-precision values
    let v = 16_777_217;
    assert_eq!(int_to_float(v, Rounding::Rn, false), 0x4b80_0000);
    assert_eq!(int_to_float(v, Rounding::Rp, false), 0x4b80_0001);
    assert_eq!(int_to_float(-v, Rounding::Rm, false), 0xcb80_0001);
    assert_eq!(int_to_float(-v, Rounding::Rz, false), 0xcb80_0000);
    // 70000 overflows half precision
    assert_eq!(int_to_float(70000, Rounding::Rn, true), 0x7c00);
    assert_eq!(int_to_float(70000, Rounding::Rz, true), 0x7bff);
    assert_eq!(int_to_float(-70000, Rounding::Rp, true), 0xfbff);
    assert_eq!(int_to_float(0, Rounding::Rm, true), 0);
}

#[test]
fn widening_half_to_single_keeps_every_value() {
    for h in 0..=u16::MAX {
        let expected = half::f16::from_bits(h).to_f32();
        let got = widen_f16(h);
        if expected.is_nan() {
            assert!(f32::from_bits(got).is_nan(), "{h:#x}");
        } else {
            assert_eq!(got, expected.to_bits(), "{h:#x}");
        }
    }
}

#[test]
fn conversion_matrix_oracles() {
    use_matrix();
}

fn use_matrix() {
    // float to narrow and wide integers, saturating at the range ends
    let to_s16 = Cvt::<i16, F32>::new(Rounding::Rni, false, true);
    assert_eq!(to_s16.host_verify(F32(0x4780_0000), i16::MAX), Ok(()));
    assert_eq!(to_s16.host_verify(F32(0xc020_0000), -2), Ok(()));
    let to_u64 = Cvt::<u64, F32>::new(Rounding::Rpi, false, false);
    assert_eq!(to_u64.host_verify(F32(0x4020_0000), 3), Ok(()));
    assert_eq!(to_u64.host_verify(F32(NEG_ONE), 1), Err(0));
    // half-precision sources: 2.5 is 0x4100
    let h_to_s32 = Cvt::<i32, F16>::new(Rounding::Rni, false, false);
    assert_eq!(h_to_s32.host_verify(F16(0x4100), 2), Ok(()));
    assert_eq!(h_to_s32.host_verify(F16(0x7c00), 0), Err(i32::MAX));
    let h_to_u16 = Cvt::<u16, F16>::new(Rounding::Rmi, false, false);
    assert_eq!(h_to_u16.host_verify(F16(0xc100), 0), Ok(()));
    // rounding to an integral value in the same format: 2.5 -> 2.0 (nearest even), -0.3 -> -0.0 (toward zero)
    let same = Cvt::<F32, F32>::new(Rounding::Rni, false, false);
    assert_eq!(same.host_verify(F32(0x4020_0000), F32(TWO)), Ok(()));
    let trunc = Cvt::<F32, F32>::new(Rounding::Rzi, false, false);
    assert_eq!(trunc.host_verify(F32(0xbe99_999a), F32(0x8000_0000)), Ok(()));
    let up = Cvt::<F32, F32>::new(Rounding::Rpi, false, false);
    assert_eq!(up.host_verify(F32(0x3f00_0000), F32(ONE)), Ok(()));
    let half_same = Cvt::<F16, F16>::new(Rounding::Rmi, false, false);
    assert_eq!(half_same.host_verify(F16(0xbe00), F16(0xc000)), Ok(()));
    // widening to double precision
    let wide = Cvt::<F64, F32>::new(Rounding::Default, false, false);
    assert_eq!(wide.host_verify(F32(ONE), F64(0x3ff0_0000_0000_0000)), Ok(()));
    assert_eq!(wide.host_verify(F32(MIN_SUB), F64((f32::from_bits(MIN_SUB) as f64).to_bits())), Ok(()));
    let int_wide = Cvt::<F64, i32>::new(Rounding::Rn, false, false);
    assert_eq!(int_wide.host_verify(-3, F64((-3.0f64).to_bits())), Ok(()));
    let half_wide = Cvt::<F64, F16>::new(Rounding::Default, false, true);
    assert_eq!(half_wide.host_verify(F16(0x4000), F64(1.0f64.to_bits())), Ok(()));
}

#[test]
fn rounding_to_integral_matches_host() {
    let mut x: u32 = 0;
    loop {
        let f = f32::from_bits(x);
        if !f.is_nan() {
            for (rnd, expected) in [
                (Rounding::Rni, f.round_ties_even()),
                (Rounding::Rzi, f.trunc()),
                (Rounding::Rmi, f.floor()),
                (Rounding::Rpi, f.ceil()),
            ] {
                assert_eq!(cvt_f32_f32(x, rnd, false, false), expected.to_bits(), "{x:#x}");
            }
            let as_int = f32_to_int(x, Rounding::Rni, false, i64::MIN as i128, i64::MAX as i128);
            assert_eq!(as_int, f.round_ties_even() as i64 as i128, "{x:#x}");
        }
        match x.checked_add(0x0000_2345) {
            Some(next) => x = next,
            None => break,
        }
    }
}

#[test]
fn widening_to_double_matches_host() {
    let mut x: u32 = 0;
    loop {
        let f = f32::from_bits(x);
        let got = cvt_f64_f32(x, false, false);
        if f.is_nan() {
            assert!(f64::from_bits(got).is_nan());
        } else {
            assert_eq!(got, (f as f64).to_bits(), "{x:#x}");
        }
        match x.checked_add(0x0000_3457) {
            Some(next) => x = next,
            None => break,
        }
    }
    for h in 0..=u16::MAX {
        let f = half::f16::from_bits(h).to_f64();
        let got = cvt_f64_f16(h, false);
        if f.is_nan() {
            assert!(f64::from_bits(got).is_nan());
        } else {
            assert_eq!(got, f.to_bits(), "{h:#x}");
        }
    }
    for v in [0i64, 1, -1, 0x7fff_ffff, -0x8000_0000, 0xffff_ffff, 123_456_789] {
        assert_eq!(cvt_f64_int(v, false), (v as f64).to_bits());
    }
}

#[test]
fn special_operand_table() {
    let draws = [11, 12, 13, 14, 15, 16, 17, 18];
    assert_eq!(operand_pair(draws, false, 0, (5, 6), true), (5, 6));
    assert_eq!(operand_pair(draws, true, 0, (5, 6), true), (0, 0x7f80_0000));
    assert_eq!(operand_pair(draws, true, 10, (5, 6), false), (0x807f_ffff, 11));
    assert_eq!(operand_pair(draws, true, 15, (5, 6), false), (0x007f_ffff, 0x4000_0000));
    assert_eq!(operand_pair(draws, true, 15, (5, 6), true), (0x007f_ffff, 0x4120_0000));
    assert_eq!(operand_pair(draws, true, 20, (5, 6), true), (18, 0x8000_0001));
    assert_eq!(operand_pair(draws, true, 22, (5, 6), true), (1, 0x4120_0000));
}
