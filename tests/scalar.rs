use ptx_harness::scalar::{OnDevice, PtxScalar, WideningMul, E4M3, E5M2, F16, F32, F64};

fn columns(n: usize) -> Vec<Vec<u8>> {
    let mut v = Vec::new();
    for _ in 0..n {
        v.push(Vec::new());
    }
    v
}

#[test]
fn round_trip_u32_at_each_index() {
    let mut cols = columns(1);
    let values = [0u32, 1, 0xdead_beef, u32::MAX];
    for v in values {
        v.write(&mut cols, 0);
    }
    assert_eq!(cols[0], vec![0, 0, 0, 0, 1, 0, 0, 0, 0xef, 0xbe, 0xad, 0xde, 0xff, 0xff, 0xff, 0xff]);
    for (i, v) in values.iter().enumerate() {
        assert_eq!(u32::read(&cols, 0, i), *v);
    }
}

#[test]
fn round_trip_signed_kinds() {
    let mut cols = columns(1);
    for v in [i16::MIN, -1, 0, 7, i16::MAX] {
        v.write(&mut cols, 0);
    }
    assert_eq!(i16::read(&cols, 0, 0), i16::MIN);
    assert_eq!(i16::read(&cols, 0, 1), -1);
    assert_eq!(i16::read(&cols, 0, 4), i16::MAX);
    let mut cols = columns(1);
    (-5i64).write(&mut cols, 0);
    i64::MIN.write(&mut cols, 0);
    assert_eq!(i64::read(&cols, 0, 0), -5);
    assert_eq!(i64::read(&cols, 0, 1), i64::MIN);
    let mut cols = columns(1);
    (-128i8).write(&mut cols, 0);
    assert_eq!(i8::read(&cols, 0, 0), -128);
}

#[test]
fn round_trip_float_patterns() {
    let mut cols = columns(1);
    F32(0x4020_0000).write(&mut cols, 0);
    F32(0xffc0_0001).write(&mut cols, 0);
    assert_eq!(F32::read(&cols, 0, 1), F32(0xffc0_0001));
    assert_eq!(F32::read(&cols, 0, 0), F32(0x4020_0000));
    let mut cols = columns(1);
    F64(0x4004_0000_0000_0000).write(&mut cols, 0);
    assert_eq!(F64::read(&cols, 0, 0), F64(0x4004_0000_0000_0000));
    let mut cols = columns(1);
    F16(0x3c00).write(&mut cols, 0);
    E4M3(0x7f).write(&mut cols, 0);
    assert_eq!(F16::read(&cols, 0, 0), F16(0x3c00));
}

#[test]
fn round_trip_tuples_are_columnar() {
    let mut cols = columns(4);
    (1u32, -2i16).write(&mut cols, 0);
    (3u32, -4i16).write(&mut cols, 0);
    assert_eq!(cols[0].len(), 8);
    assert_eq!(cols[1].len(), 4);
    assert_eq!(<(u32, i16)>::read(&cols, 0, 1), (3, -4));
    assert_eq!(<(u32, i16)>::read(&cols, 0, 0), (1, -2));
    let mut cols = columns(3);
    (F32(1), F32(2), true).write(&mut cols, 0);
    assert_eq!(<(F32, F32, bool)>::read(&cols, 0, 0), (F32(1), F32(2), true));
    let mut cols = columns(4);
    (1u64, 2u8, 3i32, false).write(&mut cols, 0);
    assert_eq!(<(u64, u8, i32, bool)>::read(&cols, 0, 0), (1, 2, 3, false));
    assert_eq!(<(u64, u8, i32, bool)>::size_of(), 14);
    assert_eq!(<(u64, u8, i32, bool)>::components(), 4);
}

#[test]
fn tuple_writes_at_an_offset_leave_other_columns() {
    let mut cols = columns(3);
    cols[0].push(9);
    (7u8, 8u8).write(&mut cols, 1);
    assert_eq!(cols[0], vec![9]);
    assert_eq!(cols[1], vec![7]);
    assert_eq!(cols[2], vec![8]);
}

#[test]
fn scalar_names_and_signedness() {
    assert_eq!(<u16 as PtxScalar>::name(), "u16");
    assert_eq!(<i32 as PtxScalar>::name(), "s32");
    assert_eq!(<E5M2 as PtxScalar>::name(), "e5m2");
    assert!(<u64 as PtxScalar>::unsigned());
    assert!(<i8 as PtxScalar>::signed());
    assert!(!<F32 as PtxScalar>::signed());
    assert!(!<F32 as PtxScalar>::unsigned());
    assert!(<F32 as PtxScalar>::is_f32());
    assert!(!<F64 as PtxScalar>::is_f32());
    assert!(!<u32 as PtxScalar>::is_f32());
}

#[test]
fn widening_multiplication_halves() {
    assert_eq!(0xffff_ffffu32.widening_mul(0xffff_ffff), (1, 0xffff_fffe));
    assert_eq!((-1i32).widening_mul(1), (-1, -1));
    assert_eq!(i32::MIN.widening_mul(i32::MIN), (0, 0x4000_0000));
    assert_eq!(200u8.widening_mul(200), (0x40, 0x9c));
    assert_eq!((-3i16).widening_mul(4), (-12, -1));
    assert_eq!(i8::MIN.widening_mul(-1), (-128, 0));
}
