use ptx_harness::batch::{memory_budget, next_multiple_of, plan_batches, GROUP_SIZE, SAFE_MEMORY_LIMIT};
use ptx_harness::common::{Comparison, Rounding};
use ptx_harness::floatbits::{BoolOp, TestpMode};
use ptx_harness::prmt::PrmtMode;
use ptx_harness::runner::{shard_range, Tally};
use ptx_harness::scalar::{F16, F32};
use ptx_harness::test::{invalid_probe_failure, RangeTest, TestCommon, TestError};
use ptx_harness::reference::{DivF32, DivVariant};
use ptx_harness::testcase::{
    Abs, AddSatTest, AddTest, Bfe, Brev, Cvt, CvtF16, CvtInt, DotProd, MinMax, MulTest, Neg, Prmt, Sad,
    SetFloatTest, SetIntTest, Shl, Shr, SubSatTest, Testp,
};
use ptx_harness::arith::Mode;

#[test]
fn batches_partition_a_domain_of_two_to_the_twenty() {
    let total = 1usize << 20;
    let element_size = 12;
    // A budget of a third of the whole forces three batches.
    let max_memory = total * element_size / 3;
    let plan = plan_batches(total, element_size, max_memory).unwrap();
    assert_eq!(plan.iterations, 3);
    let mut expected_start = 0;
    let mut sum = 0;
    for i in 0..plan.iterations {
        let (start, count) = plan.batch(i);
        assert_eq!(start, expected_start);
        assert!(count > 0);
        if i + 1 < plan.iterations {
            assert_eq!(count % GROUP_SIZE, 0);
        }
        expected_start = start + count;
        sum += count;
    }
    assert_eq!(sum, total);
    let (_, last) = plan.batch(2);
    let (_, first) = plan.batch(0);
    assert!(last < first);
    assert_eq!(last, total - 2 * first);
}

#[test]
fn plan_refuses_domains_that_are_not_whole_groups() {
    assert!(plan_batches(1000, 4, 1 << 20).is_none());
    assert!(plan_batches(0, 4, 1 << 20).is_none());
    let plan = plan_batches(256, 4, 1 << 20).unwrap();
    assert_eq!(plan.iterations, 1);
    assert_eq!(plan.batch(0), (0, 256));
}

#[test]
fn memory_budget_is_half_capped() {
    assert_eq!(memory_budget(1000), 500);
    assert_eq!(memory_budget(usize::MAX), SAFE_MEMORY_LIMIT);
    assert_eq!(next_multiple_of(0, 128), 0);
    assert_eq!(next_multiple_of(129, 128), 256);
    assert_eq!(next_multiple_of(256, 128), 256);
}

#[test]
fn shards_cover_the_list() {
    assert_eq!(shard_range(0, 3, 10), (0, 3));
    assert_eq!(shard_range(1, 3, 10), (3, 6));
    assert_eq!(shard_range(2, 3, 10), (6, 10));
    assert_eq!(shard_range(0, 4, 2), (0, 0));
}

#[test]
fn tally_counts_and_stops() {
    let mut t = Tally::new();
    assert!(!t.record(true, true));
    assert!(!t.record(false, false));
    assert!(t.record(false, true));
    assert_eq!(t.total_cases, 3);
    assert_eq!(t.passed_cases, 1);
    assert!(t.failed);
}

#[test]
fn invalid_probes() {
    let fail: Result<(), TestError> = Err(TestError::CompilationFail { message: "x".to_string() });
    assert!(invalid_probe_failure("a".to_string(), &fail).is_none());
    assert!(invalid_probe_failure("a".to_string(), &Err(TestError::MissingRunFunction)).is_none());
    match invalid_probe_failure("cvt_rn_u16_u32".to_string(), &Ok(())) {
        Some(TestError::CompilationSuccess { name }) => assert_eq!(name, "cvt_rn_u16_u32"),
        _ => panic!("a probe that compiled must fail the group"),
    }
}

#[test]
fn oracles_accept_and_report() {
    assert_eq!(Bfe::<u32>::new().host_verify((0xFFFF_FFFF, 0, 32), 0xFFFF_FFFF), Ok(()));
    assert_eq!(Bfe::<i32>::new().host_verify((-1, 31, 1), 0), Err(-1));
    assert_eq!(Brev::<u32>::new().host_verify(1, 0x8000_0000), Ok(()));
    assert_eq!(Brev::<u32>::new().generate(7), 7);
    assert_eq!(AddSatTest.host_verify((i32::MAX, 1), i32::MIN), Err(i32::MAX));
    assert_eq!(SubSatTest.host_verify((i32::MIN, 1), i32::MIN), Ok(()));
    assert_eq!(AddSatTest.generate(0x0403_0201), (0x0200_0001, 0x0400_0003));
    assert_eq!(AddTest::<u16>::new().generate(0x0001_0002), (1, 2));
    assert_eq!(AddTest::<i16>::new().host_verify((i16::MAX, 1), i16::MIN), Ok(()));
    assert_eq!(MulTest::<u16>::new(Mode::High).generate(0x0001_0002), (2, 1));
    assert_eq!(Prmt { mode: PrmtMode::Generic }.generate(0x3210), (0x0403_0201, 0x0807_0605, 0x3210));
    assert_eq!(Prmt { mode: PrmtMode::Rc8 }.max_value(), 0xffff);
    assert_eq!(Sad { signed: false }.generate(0xab12_3456), (0x1002, 0xa00b, 0x3456));
    assert_eq!(DotProd { dp2a: false, a_signed: false, b_signed: false, hi: false }.host_verify((0x0101_0101, 0x0101_0101, 0), 4), Ok(()));
    assert_eq!(Shl.generate(0x0003_0001), (1, 3));
    assert_eq!(Shr::<i16>::new().host_verify((-4, 1), -2), Ok(()));
    assert_eq!(Abs { ftz: false }.host_verify(F32(0xffc0_0000), F32(0x7fff_ffff)), Ok(()));
    assert_eq!(Neg { ftz: true }.host_verify(F32(1), F32(0)), Err(F32(0x8000_0000)));
    assert_eq!(Testp::<F32>::new(TestpMode::Normal).host_verify(F32(0), 1), Ok(()));
    let set = SetIntTest::<i16, u32>::new(Comparison::Lt, Some((BoolOp::And, true)));
    assert_eq!(set.generate(0xffff_0001), (-1, 1));
    assert_eq!(set.host_verify((-1, 1), 0xffff_ffff), Ok(()));
    let set_u = SetIntTest::<u16, u32>::new(Comparison::Lo, None);
    assert_eq!(set_u.host_verify((0xffff, 1), 0), Ok(()));
    let setf = SetFloatTest { cmp_op: Comparison::Nan, bool_op: BoolOp::Or, ftz: false };
    assert_eq!(setf.host_verify((F32(0x7fc0_0000), F32(0), false), F32(0x3f80_0000)), Ok(()));
    let cvt = Cvt::<i32, F32>::new(Rounding::Rn, false, false);
    assert_eq!(cvt.host_verify(F32(0x4020_0000), 2), Ok(()));
    assert_eq!(cvt.host_verify(F32(0x4060_0000), 3), Err(4));
    assert_eq!(cvt.host_verify(F32(0x7fc0_0000), 12345), Ok(()));
    let to_half = CvtF16 { rnd: Rounding::Rn, ftz: false, sat: true };
    assert_eq!(to_half.host_verify(F32(0xc0a0_0000), F16(0)), Ok(()));
    assert_eq!(to_half.host_verify(F32(0xc0a0_0000), F16(0x8000)), Err(F16(0)));
    assert_eq!(to_half.generate(5), F32(5));
    let min = MinMax { max: false, ftz: false, nan: false };
    assert_eq!(min.generate(0x3c00_c000), (F16(0xc000), F16(0x3c00)));
    assert_eq!(min.host_verify((F16(0xc000), F16(0x3c00)), F16(0xc000)), Ok(()));
    assert_eq!(min.host_verify((F16(0), F16(0x8000)), F16(0)), Ok(()));
}

#[test]
fn integer_conversion_oracles() {
    use_int_conversions();
}

fn use_int_conversions() {
    let narrow_sat = CvtInt::<u16, i32>::new(true);
    assert_eq!(narrow_sat.host_verify(-5, 0), Ok(()));
    assert_eq!(narrow_sat.host_verify(70000, 0xffff), Ok(()));
    let narrow = CvtInt::<u16, i32>::new(false);
    assert_eq!(narrow.host_verify(70000, 0xffff), Err(4464));
    let widen = CvtInt::<u64, i16>::new(false);
    assert_eq!(widen.host_verify(-1, u64::MAX), Ok(()));
    assert_eq!(widen.max_value(), 0xffff);
    assert_eq!(widen.generate(0xffff), -1);
    let same = CvtInt::<i32, u32>::new(true);
    assert_eq!(same.host_verify(0xffff_ffff, i32::MAX), Ok(()));
}

#[test]
fn three_batches_of_two_to_the_twenty() {
    let plan = plan_batches(1 << 20, 8, 2_796_202).unwrap();
    assert_eq!(plan.iterations, 3);
    assert_eq!(plan.batch(0), (0, 349_568));
    assert_eq!(plan.batch(1), (349_568, 349_568));
    assert_eq!(plan.batch(2), (699_136, 349_440));
    assert_eq!(next_multiple_of(usize::MAX, 1), usize::MAX);
}

#[test]
fn division_oracle() {
    use_division();
}

fn use_division() {
    let approx = DivF32::new(DivVariant::Approx, false);
    // a divisor below 2^-126 in magnitude accepts anything
    assert_eq!(approx.verify(0x3f80_0000, 0x0000_0010, F32(0x1234_5678), 0x7f80_0000), Ok(()));
    let full = DivF32::new(DivVariant::Full, false);
    assert_eq!(full.verify(0x3f80_0000, 0x4000_0000, F32(0x3f00_0003), 0x3f00_0000), Err(F32(0x3f00_0000)));
    let rounded = DivF32::new(DivVariant::Rnd(Rounding::Rz), false);
    assert_eq!(rounded.verify(0x3f80_0000, 0x4040_0000, F32(0x3eaa_aaaa), 0x3eaa_aaaa), Ok(()));
}
