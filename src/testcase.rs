//! One test type per instruction and modifier family, with its oracle and its inputs.

use vstd::prelude::*;
use std::marker::PhantomData;
use crate::arith::{
    add_s16, add_u16, add_with_saturation_s32, addc_subc, addc_subc_spec, clamp, dp2a, dp2a_spec,
    dp4a, dp4a_spec, mad_hi_sat_s32, mad_s16, mad_u16, mad_wide_s16, mad_wide_u16, madc, madc_spec,
    mul24, mul24_spec, mul_s16, mul_u16, mul_wide_s16, mul_wide_u16, sad, sad_spec, sub_s16,
    sub_u16, sub_with_saturation_s32, wrap_signed, wrap_unsigned, Mode,
};
use crate::bitfield::{
    bfe_spec, bfi_spec, brev_spec, bfe_u32, bfe_s32, bfe_u64, bfe_s64, bfi_b32, bfi_b64, brev_b32,
};
use crate::common::{f32_is_nan, Comparison, Rounding};
use crate::cvt::{
    int_to_float, int_to_float_spec, saturate_unit_f16, saturate_unit_f16_spec, int_convert,
    int_convert_spec, cvt_f16_f32_full, cvt_f16_f32_full_spec, cvt_pack_sat, cvt_pack_spec,
    f32_to_int, f32_to_int_spec, f16_to_int, f16_to_int_spec, cvt_f32_f32, cvt_f32_f32_spec,
    cvt_f16_f16, cvt_f16_f16_spec, cvt_f64_f32, cvt_f64_f32_spec, cvt_f64_f16, cvt_f64_f16_spec,
    cvt_f64_int, cvt_f64_int_spec,
};
use crate::common::flush_f32;
use crate::floatbits::{
    saturate_unit_f32, saturate_unit_spec, minmax_f16, minmax_f16_spec, abs_f32, combine,
    combine_spec, neg_f32, same_f32, set_f32, set_int_result, BoolOp, TestpMode, F32_ONE,
};
use crate::prmt::{host_prmt, prmt_spec, PrmtMode};
use crate::scalar::{F16, F32, F64};
use crate::shift::{shf, shf_spec, shl_b16, shr_s16, shr_u16, vshr, vshr_spec};
use crate::test::{RangeTest, TestCommon};

verus! {

/// Bit-field extraction on operands of kind `T`; inputs are (value, position, length).
pub struct Bfe<T> {
    pub marker: PhantomData<T>,
}

impl<T> Bfe<T> {
    pub fn new() -> Self {
        Bfe { marker: PhantomData }
    }
}

impl TestCommon for Bfe<u32> {
    type Input = (u32, u32, u32);

    type Output = u32;

    open spec fn spec_expected(&self, input: (u32, u32, u32)) -> u32 {
        bfe_spec(input.0 as nat, (input.1 % 256) as nat, (input.2 % 256) as nat, 32, false) as u32
    }

    open spec fn spec_accepts(&self, input: (u32, u32, u32), output: u32) -> bool {
        output == self.spec_expected(input)
    }

    fn host_verify(&self, input: (u32, u32, u32), output: u32) -> (r: Result<(), u32>) {
        let expected = bfe_u32(input.0, input.1, input.2);
        if expected == output {
            Ok(())
        } else {
            Err(expected)
        }
    }
}

impl TestCommon for Bfe<i32> {
    type Input = (i32, u32, u32);

    type Output = i32;

    open spec fn spec_expected(&self, input: (i32, u32, u32)) -> i32 {
        (bfe_spec((input.0 as u32) as nat, (input.1 % 256) as nat, (input.2 % 256) as nat, 32, true) as u32) as i32
    }

    open spec fn spec_accepts(&self, input: (i32, u32, u32), output: i32) -> bool {
        output == self.spec_expected(input)
    }

    fn host_verify(&self, input: (i32, u32, u32), output: i32) -> (r: Result<(), i32>) {
        let expected = bfe_s32(input.0, input.1, input.2);
        if expected == output {
            Ok(())
        } else {
            Err(expected)
        }
    }
}

impl TestCommon for Bfe<u64> {
    type Input = (u64, u32, u32);

    type Output = u64;

    open spec fn spec_expected(&self, input: (u64, u32, u32)) -> u64 {
        bfe_spec(input.0 as nat, input.1 as nat, input.2 as nat, 64, false) as u64
    }

    open spec fn spec_accepts(&self, input: (u64, u32, u32), output: u64) -> bool {
        output == self.spec_expected(input)
    }

    fn host_verify(&self, input: (u64, u32, u32), output: u64) -> (r: Result<(), u64>) {
        let expected = bfe_u64(input.0, input.1, input.2);
        if expected == output {
            Ok(())
        } else {
            Err(expected)
        }
    }
}

impl TestCommon for Bfe<i64> {
    type Input = (i64, u32, u32);

    type Output = i64;

    open spec fn spec_expected(&self, input: (i64, u32, u32)) -> i64 {
        (bfe_spec((input.0 as u64) as nat, input.1 as nat, input.2 as nat, 64, true) as u64) as i64
    }

    open spec fn spec_accepts(&self, input: (i64, u32, u32), output: i64) -> bool {
        output == self.spec_expected(input)
    }

    fn host_verify(&self, input: (i64, u32, u32), output: i64) -> (r: Result<(), i64>) {
        let expected = bfe_s64(input.0, input.1, input.2);
        if expected == output {
            Ok(())
        } else {
            Err(expected)
        }
    }
}

/// Bit-field insertion; inputs are (field source, base, position, length).
pub struct Bfi<T> {
    pub marker: PhantomData<T>,
}

impl<T> Bfi<T> {
    pub fn new() -> Self {
        Bfi { marker: PhantomData }
    }
}

impl TestCommon for Bfi<u32> {
    type Input = (u32, u32, u32, u32);

    type Output = u32;

    open spec fn spec_expected(&self, input: (u32, u32, u32, u32)) -> u32 {
        bfi_spec(input.0 as nat, input.1 as nat, (input.2 % 256) as nat, (input.3 % 256) as nat, 32) as u32
    }

    open spec fn spec_accepts(&self, input: (u32, u32, u32, u32), output: u32) -> bool {
        output == self.spec_expected(input)
    }

    fn host_verify(&self, input: (u32, u32, u32, u32), output: u32) -> (r: Result<(), u32>) {
        let expected = bfi_b32(input.0, input.1, input.2, input.3);
        if expected == output {
            Ok(())
        } else {
            Err(expected)
        }
    }
}

impl TestCommon for Bfi<u64> {
    type Input = (u64, u64, u32, u32);

    type Output = u64;

    open spec fn spec_expected(&self, input: (u64, u64, u32, u32)) -> u64 {
        bfi_spec(input.0 as nat, input.1 as nat, input.2 as nat, input.3 as nat, 64) as u64
    }

    open spec fn spec_accepts(&self, input: (u64, u64, u32, u32), output: u64) -> bool {
        output == self.spec_expected(input)
    }

    fn host_verify(&self, input: (u64, u64, u32, u32), output: u64) -> (r: Result<(), u64>) {
        let expected = bfi_b64(input.0, input.1, input.2, input.3);
        if expected == output {
            Ok(())
        } else {
            Err(expected)
        }
    }
}

/// Bit reversal, over every 32-bit value.
pub struct Brev<T> {
    pub marker: PhantomData<T>,
}

impl<T> Brev<T> {
    pub fn new() -> Self {
        Brev { marker: PhantomData }
    }
}

impl TestCommon for Brev<u32> {
    type Input = u32;

    type Output = u32;

    open spec fn spec_expected(&self, input: u32) -> u32 {
        brev_spec(input as nat, 32) as u32
    }

    open spec fn spec_accepts(&self, input: u32, output: u32) -> bool {
        output == self.spec_expected(input)
    }

    fn host_verify(&self, input: u32, output: u32) -> (r: Result<(), u32>) {
        let expected = brev_b32(input);
        if expected == output {
            Ok(())
        } else {
            Err(expected)
        }
    }
}

impl RangeTest for Brev<u32> {
    open spec fn spec_max_value(&self) -> u32 {
        0xffff_ffff
    }

    open spec fn spec_generate(&self, index: u32) -> u32 {
        index
    }

    fn max_value(&self) -> (r: u32) {
        0xffff_ffff
    }

    fn generate(&self, index: u32) -> (r: u32) {
        index
    }
}

/// Wrapping addition over every pair of 16-bit operands.
pub struct AddTest<T> {
    pub marker: PhantomData<T>,
}

impl<T> AddTest<T> {
    pub fn new() -> Self {
        AddTest { marker: PhantomData }
    }
}

impl TestCommon for AddTest<u16> {
    type Input = (u16, u16);

    type Output = u16;

    open spec fn spec_expected(&self, input: (u16, u16)) -> u16 {
        wrap_unsigned(input.0 + input.1, 0x1_0000) as u16
    }

    open spec fn spec_accepts(&self, input: (u16, u16), output: u16) -> bool {
        output == self.spec_expected(input)
    }

    fn host_verify(&self, input: (u16, u16), output: u16) -> (r: Result<(), u16>) {
        let expected = add_u16(input.0, input.1);
        if expected == output {
            Ok(())
        } else {
            Err(expected)
        }
    }
}

impl RangeTest for AddTest<u16> {
    open spec fn spec_max_value(&self) -> u32 {
        0xffff_ffff
    }

    open spec fn spec_generate(&self, index: u32) -> (u16, u16) {
        ((index / 0x1_0000) as u16, (index % 0x1_0000) as u16)
    }

    fn max_value(&self) -> (r: u32) {
        0xffff_ffff
    }

    fn generate(&self, index: u32) -> (r: (u16, u16)) {
        ((index / 0x1_0000) as u16, (index % 0x1_0000) as u16)
    }
}

impl TestCommon for AddTest<i16> {
    type Input = (i16, i16);

    type Output = i16;

    open spec fn spec_expected(&self, input: (i16, i16)) -> i16 {
        wrap_signed(input.0 + input.1, 0x1_0000) as i16
    }

    open spec fn spec_accepts(&self, input: (i16, i16), output: i16) -> bool {
        output == self.spec_expected(input)
    }

    fn host_verify(&self, input: (i16, i16), output: i16) -> (r: Result<(), i16>) {
        let expected = add_s16(input.0, input.1);
        if expected == output {
            Ok(())
        } else {
            Err(expected)
        }
    }
}

impl RangeTest for AddTest<i16> {
    open spec fn spec_max_value(&self) -> u32 {
        0xffff_ffff
    }

    open spec fn spec_generate(&self, index: u32) -> (i16, i16) {
        (#[verifier::truncate] ((index / 0x1_0000) as u16 as i16), #[verifier::truncate] ((index % 0x1_0000) as u16 as i16))
    }

    fn max_value(&self) -> (r: u32) {
        0xffff_ffff
    }

    fn generate(&self, index: u32) -> (r: (i16, i16)) {
        (((index / 0x1_0000) as u16) as i16, ((index % 0x1_0000) as u16) as i16)
    }
}

/// Saturating 32-bit signed addition.
pub struct AddSatTest;

impl TestCommon for AddSatTest {
    type Input = (i32, i32);

    type Output = i32;

    open spec fn spec_expected(&self, input: (i32, i32)) -> i32 {
        clamp(input.0 + input.1, i32::MIN as int, i32::MAX as int) as i32
    }

    open spec fn spec_accepts(&self, input: (i32, i32), output: i32) -> bool {
        output == self.spec_expected(input)
    }

    fn host_verify(&self, input: (i32, i32), output: i32) -> (r: Result<(), i32>) {
        let expected = add_with_saturation_s32(input.0, input.1, true);
        if expected == output {
            Ok(())
        } else {
            Err(expected)
        }
    }
}

impl RangeTest for AddSatTest {
    open spec fn spec_max_value(&self) -> u32 {
        0xffff_ffff
    }

    open spec fn spec_generate(&self, index: u32) -> (i32, i32) {
        (#[verifier::truncate] ((index % 0x100 + (index / 0x100) % 0x100 * 0x100_0000) as u32 as i32), #[verifier::truncate] (((index / 0x1_0000) % 0x100 + (index / 0x100_0000) * 0x100_0000) as u32 as i32))
    }

    fn max_value(&self) -> (r: u32) {
        0xffff_ffff
    }

    fn generate(&self, index: u32) -> (r: (i32, i32)) {
        sat_operands(index)
    }
}

/// Wrapping subtraction over every pair of 16-bit operands.
pub struct SubTest<T> {
    pub marker: PhantomData<T>,
}

impl<T> SubTest<T> {
    pub fn new() -> Self {
        SubTest { marker: PhantomData }
    }
}

impl TestCommon for SubTest<u16> {
    type Input = (u16, u16);

    type Output = u16;

    open spec fn spec_expected(&self, input: (u16, u16)) -> u16 {
        wrap_unsigned(input.0 - input.1, 0x1_0000) as u16
    }

    open spec fn spec_accepts(&self, input: (u16, u16), output: u16) -> bool {
        output == self.spec_expected(input)
    }

    fn host_verify(&self, input: (u16, u16), output: u16) -> (r: Result<(), u16>) {
        let expected = sub_u16(input.0, input.1);
        if expected == output {
            Ok(())
        } else {
            Err(expected)
        }
    }
}

impl RangeTest for SubTest<u16> {
    open spec fn spec_max_value(&self) -> u32 {
        0xffff_ffff
    }

    open spec fn spec_generate(&self, index: u32) -> (u16, u16) {
        ((index / 0x1_0000) as u16, (index % 0x1_0000) as u16)
    }

    fn max_value(&self) -> (r: u32) {
        0xffff_ffff
    }

    fn generate(&self, index: u32) -> (r: (u16, u16)) {
        ((index / 0x1_0000) as u16, (index % 0x1_0000) as u16)
    }
}

impl TestCommon for SubTest<i16> {
    type Input = (i16, i16);

    type Output = i16;

    open spec fn spec_expected(&self, input: (i16, i16)) -> i16 {
        wrap_signed(input.0 - input.1, 0x1_0000) as i16
    }

    open spec fn spec_accepts(&self, input: (i16, i16), output: i16) -> bool {
        output == self.spec_expected(input)
    }

    fn host_verify(&self, input: (i16, i16), output: i16) -> (r: Result<(), i16>) {
        let expected = sub_s16(input.0, input.1);
        if expected == output {
            Ok(())
        } else {
            Err(expected)
        }
    }
}

impl RangeTest for SubTest<i16> {
    open spec fn spec_max_value(&self) -> u32 {
        0xffff_ffff
    }

    open spec fn spec_generate(&self, index: u32) -> (i16, i16) {
        (#[verifier::truncate] ((index / 0x1_0000) as u16 as i16), #[verifier::truncate] ((index % 0x1_0000) as u16 as i16))
    }

    fn max_value(&self) -> (r: u32) {
        0xffff_ffff
    }

    fn generate(&self, index: u32) -> (r: (i16, i16)) {
        (((index / 0x1_0000) as u16) as i16, ((index % 0x1_0000) as u16) as i16)
    }
}

/// Saturating 32-bit signed subtraction.
pub struct SubSatTest;

impl TestCommon for SubSatTest {
    type Input = (i32, i32);

    type Output = i32;

    open spec fn spec_expected(&self, input: (i32, i32)) -> i32 {
        clamp(input.0 - input.1, i32::MIN as int, i32::MAX as int) as i32
    }

    open spec fn spec_accepts(&self, input: (i32, i32), output: i32) -> bool {
        output == self.spec_expected(input)
    }

    fn host_verify(&self, input: (i32, i32), output: i32) -> (r: Result<(), i32>) {
        let expected = sub_with_saturation_s32(input.0, input.1, true);
        if expected == output {
            Ok(())
        } else {
            Err(expected)
        }
    }
}

impl RangeTest for SubSatTest {
    open spec fn spec_max_value(&self) -> u32 {
        0xffff_ffff
    }

    open spec fn spec_generate(&self, index: u32) -> (i32, i32) {
        (#[verifier::truncate] ((index % 0x100 + (index / 0x100) % 0x100 * 0x100_0000) as u32 as i32), #[verifier::truncate] (((index / 0x1_0000) % 0x100 + (index / 0x100_0000) * 0x100_0000) as u32 as i32))
    }

    fn max_value(&self) -> (r: u32) {
        0xffff_ffff
    }

    fn generate(&self, index: u32) -> (r: (i32, i32)) {
        sat_operands(index)
    }
}

/// The operands of the saturating tests: each is built from two bytes of the index, one in
/// the lowest and one in the highest byte of the operand, so that both overflow directions
/// are reached.
fn sat_operands(index: u32) -> (r: (i32, i32))
    ensures
        r == (#[verifier::truncate] ((index % 0x100 + (index / 0x100) % 0x100 * 0x100_0000) as u32 as i32), #[verifier::truncate] (((index / 0x1_0000) % 0x100 + (index / 0x100_0000) * 0x100_0000) as u32 as i32)),
{
    let a = (index % 0x100 + (index / 0x100) % 0x100 * 0x100_0000) as i32;
    let b = ((index / 0x1_0000) % 0x100 + (index / 0x100_0000) * 0x100_0000) as i32;
    (a, b)
}

/// 16-bit multiplication keeping the low or the high half, over every pair of operands.
pub struct MulTest<T> {
    pub marker: PhantomData<T>,
    pub mode: Mode,
}

impl<T> MulTest<T> {
    pub fn new(mode: Mode) -> (r: Self)
        ensures
            r.mode == mode,
    {
        MulTest { marker: PhantomData, mode }
    }
}

impl TestCommon for MulTest<u16> {
    type Input = (u16, u16);

    type Output = u16;

    open spec fn spec_expected(&self, input: (u16, u16)) -> u16 {
        (match self.mode { Mode::Low => (input.0 * input.1) % 0x1_0000, Mode::High => (input.0 * input.1) / 0x1_0000 }) as u16
    }

    open spec fn spec_accepts(&self, input: (u16, u16), output: u16) -> bool {
        output == self.spec_expected(input)
    }

    fn host_verify(&self, input: (u16, u16), output: u16) -> (r: Result<(), u16>) {
        let expected = mul_u16(input.0, input.1, self.mode);
        if expected == output {
            Ok(())
        } else {
            Err(expected)
        }
    }
}

impl RangeTest for MulTest<u16> {
    open spec fn spec_max_value(&self) -> u32 {
        0xffff_ffff
    }

    open spec fn spec_generate(&self, index: u32) -> (u16, u16) {
        ((index % 0x1_0000) as u16, (index / 0x1_0000) as u16)
    }

    fn max_value(&self) -> (r: u32) {
        0xffff_ffff
    }

    fn generate(&self, index: u32) -> (r: (u16, u16)) {
        ((index % 0x1_0000) as u16, (index / 0x1_0000) as u16)
    }
}

impl TestCommon for MulTest<i16> {
    type Input = (i16, i16);

    type Output = i16;

    open spec fn spec_expected(&self, input: (i16, i16)) -> i16 {
        (match self.mode { Mode::Low => wrap_signed(input.0 * input.1, 0x1_0000), Mode::High => (input.0 * input.1) / 0x1_0000 }) as i16
    }

    open spec fn spec_accepts(&self, input: (i16, i16), output: i16) -> bool {
        output == self.spec_expected(input)
    }

    fn host_verify(&self, input: (i16, i16), output: i16) -> (r: Result<(), i16>) {
        let expected = mul_s16(input.0, input.1, self.mode);
        if expected == output {
            Ok(())
        } else {
            Err(expected)
        }
    }
}

impl RangeTest for MulTest<i16> {
    open spec fn spec_max_value(&self) -> u32 {
        0xffff_ffff
    }

    open spec fn spec_generate(&self, index: u32) -> (i16, i16) {
        (#[verifier::truncate] ((index % 0x1_0000) as u16 as i16), #[verifier::truncate] ((index / 0x1_0000) as u16 as i16))
    }

    fn max_value(&self) -> (r: u32) {
        0xffff_ffff
    }

    fn generate(&self, index: u32) -> (r: (i16, i16)) {
        (((index % 0x1_0000) as u16) as i16, ((index / 0x1_0000) as u16) as i16)
    }
}

/// 16-bit multiplication keeping the whole 32-bit product.
pub struct MulWideTest<T> {
    pub marker: PhantomData<T>,
}

impl<T> MulWideTest<T> {
    pub fn new() -> Self {
        MulWideTest { marker: PhantomData }
    }
}

impl TestCommon for MulWideTest<u16> {
    type Input = (u16, u16);

    type Output = u32;

    open spec fn spec_expected(&self, input: (u16, u16)) -> u32 {
        (input.0 * input.1) as u32
    }

    open spec fn spec_accepts(&self, input: (u16, u16), output: u32) -> bool {
        output == self.spec_expected(input)
    }

    fn host_verify(&self, input: (u16, u16), output: u32) -> (r: Result<(), u32>) {
        let expected = mul_wide_u16(input.0, input.1);
        if expected == output {
            Ok(())
        } else {
            Err(expected)
        }
    }
}

impl RangeTest for MulWideTest<u16> {
    open spec fn spec_max_value(&self) -> u32 {
        0xffff_ffff
    }

    open spec fn spec_generate(&self, index: u32) -> (u16, u16) {
        ((index % 0x1_0000) as u16, (index / 0x1_0000) as u16)
    }

    fn max_value(&self) -> (r: u32) {
        0xffff_ffff
    }

    fn generate(&self, index: u32) -> (r: (u16, u16)) {
        ((index % 0x1_0000) as u16, (index / 0x1_0000) as u16)
    }
}

impl TestCommon for MulWideTest<i16> {
    type Input = (i16, i16);

    type Output = i32;

    open spec fn spec_expected(&self, input: (i16, i16)) -> i32 {
        (input.0 * input.1) as i32
    }

    open spec fn spec_accepts(&self, input: (i16, i16), output: i32) -> bool {
        output == self.spec_expected(input)
    }

    fn host_verify(&self, input: (i16, i16), output: i32) -> (r: Result<(), i32>) {
        let expected = mul_wide_s16(input.0, input.1);
        if expected == output {
            Ok(())
        } else {
            Err(expected)
        }
    }
}

impl RangeTest for MulWideTest<i16> {
    open spec fn spec_max_value(&self) -> u32 {
        0xffff_ffff
    }

    open spec fn spec_generate(&self, index: u32) -> (i16, i16) {
        (#[verifier::truncate] ((index % 0x1_0000) as u16 as i16), #[verifier::truncate] ((index / 0x1_0000) as u16 as i16))
    }

    fn max_value(&self) -> (r: u32) {
        0xffff_ffff
    }

    fn generate(&self, index: u32) -> (r: (i16, i16)) {
        (((index % 0x1_0000) as u16) as i16, ((index / 0x1_0000) as u16) as i16)
    }
}

/// Which half of the product a multiply-add uses.
#[derive(Clone, Copy, PartialEq, Eq, Debug, Structural)]
pub enum MadMode {
    Low,
    High,
    Wide,
}

impl MadMode {
    pub open spec fn spec_str(self) -> Seq<char> {
        match self {
            MadMode::Low => "lo"@,
            MadMode::High => "hi"@,
            MadMode::Wide => "wide"@,
        }
    }

    pub fn ptx_modifier(&self) -> (r: &'static str)
        ensures
            r@ == self.spec_str(),
    {
        match self {
            MadMode::Low => "lo",
            MadMode::High => "hi",
            MadMode::Wide => "wide",
        }
    }
}

/// Multiply-add with operands of kind `T` and an accumulator of kind `U`.
pub struct MadTest<T, U> {
    pub marker: PhantomData<(T, U)>,
    pub mode: MadMode,
    pub sat: bool,
}

impl<T, U> MadTest<T, U> {
    pub fn new(mode: MadMode, sat: bool) -> (r: Self)
        ensures
            r.mode == mode && r.sat == sat,
    {
        MadTest { marker: PhantomData, mode, sat }
    }
}

impl TestCommon for MadTest<u16, u16> {
    type Input = (u16, u16, u16);

    type Output = u16;

    open spec fn spec_expected(&self, input: (u16, u16, u16)) -> u16 {
        wrap_unsigned(match self.mode { MadMode::High => (input.0 * input.1) / 0x1_0000, _ => (input.0 * input.1) % 0x1_0000 } + input.2, 0x1_0000) as u16
    }

    open spec fn spec_accepts(&self, input: (u16, u16, u16), output: u16) -> bool {
        output == self.spec_expected(input)
    }

    fn host_verify(&self, input: (u16, u16, u16), output: u16) -> (r: Result<(), u16>) {
        let expected = mad_u16(input.0, input.1, input.2, if self.mode == MadMode::High { Mode::High } else { Mode::Low });
        if expected == output {
            Ok(())
        } else {
            Err(expected)
        }
    }
}

impl TestCommon for MadTest<i16, i16> {
    type Input = (i16, i16, i16);

    type Output = i16;

    open spec fn spec_expected(&self, input: (i16, i16, i16)) -> i16 {
        wrap_signed(match self.mode { MadMode::High => (input.0 * input.1) / 0x1_0000, _ => wrap_signed(input.0 * input.1, 0x1_0000) } + input.2, 0x1_0000) as i16
    }

    open spec fn spec_accepts(&self, input: (i16, i16, i16), output: i16) -> bool {
        output == self.spec_expected(input)
    }

    fn host_verify(&self, input: (i16, i16, i16), output: i16) -> (r: Result<(), i16>) {
        let expected = mad_s16(input.0, input.1, input.2, if self.mode == MadMode::High { Mode::High } else { Mode::Low });
        if expected == output {
            Ok(())
        } else {
            Err(expected)
        }
    }
}

impl TestCommon for MadTest<u16, u32> {
    type Input = (u16, u16, u32);

    type Output = u32;

    open spec fn spec_expected(&self, input: (u16, u16, u32)) -> u32 {
        wrap_unsigned(input.0 * input.1 + input.2, 0x1_0000_0000) as u32
    }

    open spec fn spec_accepts(&self, input: (u16, u16, u32), output: u32) -> bool {
        output == self.spec_expected(input)
    }

    fn host_verify(&self, input: (u16, u16, u32), output: u32) -> (r: Result<(), u32>) {
        let expected = mad_wide_u16(input.0, input.1, input.2);
        if expected == output {
            Ok(())
        } else {
            Err(expected)
        }
    }
}

impl TestCommon for MadTest<i16, i32> {
    type Input = (i16, i16, i32);

    type Output = i32;

    open spec fn spec_expected(&self, input: (i16, i16, i32)) -> i32 {
        wrap_signed(input.0 * input.1 + input.2, 0x1_0000_0000) as i32
    }

    open spec fn spec_accepts(&self, input: (i16, i16, i32), output: i32) -> bool {
        output == self.spec_expected(input)
    }

    fn host_verify(&self, input: (i16, i16, i32), output: i32) -> (r: Result<(), i32>) {
        let expected = mad_wide_s16(input.0, input.1, input.2);
        if expected == output {
            Ok(())
        } else {
            Err(expected)
        }
    }
}

impl TestCommon for MadTest<i32, i32> {
    type Input = (i32, i32, i32);

    type Output = i32;

    open spec fn spec_expected(&self, input: (i32, i32, i32)) -> i32 {
        (if self.sat { clamp((input.0 * input.1) / 0x1_0000_0000 + input.2, i32::MIN as int, i32::MAX as int) } else { wrap_signed((input.0 * input.1) / 0x1_0000_0000 + input.2, 0x1_0000_0000) }) as i32
    }

    open spec fn spec_accepts(&self, input: (i32, i32, i32), output: i32) -> bool {
        output == self.spec_expected(input)
    }

    fn host_verify(&self, input: (i32, i32, i32), output: i32) -> (r: Result<(), i32>) {
        let expected = mad_hi_s32(input.0, input.1, input.2, self.sat);
        if expected == output {
            Ok(())
        } else {
            Err(expected)
        }
    }
}

/// The high half of a 32-bit signed product plus `c`, saturating when `sat` is set.
fn mad_hi_s32(a: i32, b: i32, c: i32, sat: bool) -> (r: i32)
    ensures
        r as int == if sat {
            clamp((a * b) / 0x1_0000_0000 + c, i32::MIN as int, i32::MAX as int)
        } else {
            wrap_signed((a * b) / 0x1_0000_0000 + c, 0x1_0000_0000)
        },
{
    if sat {
        mad_hi_sat_s32(a, b, c)
    } else {
        let (_lo, hi) = crate::scalar::WideningMul::widening_mul(a, b);
        proof {
            lemma_fundamental_div_mod_converse_i32(a, b, _lo, hi);
        }
        add_with_saturation_s32(hi, c, false)
    }
}

proof fn lemma_fundamental_div_mod_converse_i32(a: i32, b: i32, lo: i32, hi: i32)
    requires
        hi * 0x1_0000_0000 + (lo as u32) as int == a * b,
    ensures
        hi as int == (a * b) / 0x1_0000_0000,
{
    vstd::arithmetic::div_mod::lemma_fundamental_div_mod_converse(
        a * b,
        0x1_0000_0000,
        hi as int,
        (lo as u32) as int,
    );
}

/// 24-bit multiplication, low or high part, signed or unsigned.
pub struct Mul24 {
    pub signed: bool,
    pub hi: bool,
}

impl TestCommon for Mul24 {
    type Input = (u32, u32);

    type Output = u32;

    open spec fn spec_expected(&self, input: (u32, u32)) -> u32 {
        mul24_spec(input.0, input.1, self.signed, self.hi) as u32
    }

    open spec fn spec_accepts(&self, input: (u32, u32), output: u32) -> bool {
        output == self.spec_expected(input)
    }

    fn host_verify(&self, input: (u32, u32), output: u32) -> (r: Result<(), u32>) {
        let expected = mul24(input.0, input.1, self.signed, self.hi);
        if expected == output {
            Ok(())
        } else {
            Err(expected)
        }
    }
}

/// Sum of absolute differences on 16-bit operands.
pub struct Sad {
    pub signed: bool,
}

impl TestCommon for Sad {
    type Input = (u16, u16, u16);

    type Output = u16;

    open spec fn spec_expected(&self, input: (u16, u16, u16)) -> u16 {
        sad_spec(input.0, input.1, input.2, self.signed) as u16
    }

    open spec fn spec_accepts(&self, input: (u16, u16, u16), output: u16) -> bool {
        output == self.spec_expected(input)
    }

    fn host_verify(&self, input: (u16, u16, u16), output: u16) -> (r: Result<(), u16>) {
        let expected = sad(input.0, input.1, input.2, self.signed);
        if expected == output {
            Ok(())
        } else {
            Err(expected)
        }
    }
}

impl RangeTest for Sad {
    open spec fn spec_max_value(&self) -> u32 {
        0xffff_ffff
    }

    open spec fn spec_generate(&self, index: u32) -> (u16, u16, u16) {
        sad_operands(index)
    }

    fn max_value(&self) -> (r: u32) {
        0xffff_ffff
    }

    fn generate(&self, index: u32) -> (r: (u16, u16, u16)) {
        let a_byte = (index / 0x1_0000) % 0x100;
        let b_byte = index / 0x100_0000;
        (
            ((a_byte / 16) * 0x1000 + a_byte % 16) as u16,
            ((b_byte / 16) * 0x1000 + b_byte % 16) as u16,
            (index % 0x1_0000) as u16,
        )
    }
}

/// The operands of the sum-of-absolute-differences test: `c` takes the low 16 bits of the
/// index; `a` and `b` take one byte each, spread over their top and bottom nibbles.
pub open spec fn sad_operands(index: u32) -> (u16, u16, u16) {
    let a_byte = (index / 0x1_0000) % 0x100;
    let b_byte = index / 0x100_0000;
    (
        ((a_byte / 16) * 0x1000 + a_byte % 16) as u16,
        ((b_byte / 16) * 0x1000 + b_byte % 16) as u16,
        (index % 0x1_0000) as u16,
    )
}

/// Four-way (`dp4a`) or two-way (`dp2a`) dot product; `hi` picks the upper bytes of `b` for the two-way form.
pub struct DotProd {
    pub dp2a: bool,
    pub a_signed: bool,
    pub b_signed: bool,
    pub hi: bool,
}

impl TestCommon for DotProd {
    type Input = (u32, u32, u32);

    type Output = u32;

    open spec fn spec_expected(&self, input: (u32, u32, u32)) -> u32 {
        (if self.dp2a { dp2a_spec(input.0, input.1, input.2, self.hi, self.a_signed, self.b_signed) } else { dp4a_spec(input.0, input.1, input.2, self.a_signed, self.b_signed) }) as u32
    }

    open spec fn spec_accepts(&self, input: (u32, u32, u32), output: u32) -> bool {
        output == self.spec_expected(input)
    }

    fn host_verify(&self, input: (u32, u32, u32), output: u32) -> (r: Result<(), u32>) {
        let expected = if self.dp2a { dp2a(input.0, input.1, input.2, self.hi, self.a_signed, self.b_signed) } else { dp4a(input.0, input.1, input.2, self.a_signed, self.b_signed) };
        if expected == output {
            Ok(())
        } else {
            Err(expected)
        }
    }
}

/// Byte permutation over every 16-bit selector, on fixed sources.
pub struct Prmt {
    pub mode: PrmtMode,
}

impl TestCommon for Prmt {
    type Input = (u32, u32, u32);

    type Output = u32;

    open spec fn spec_expected(&self, input: (u32, u32, u32)) -> u32 {
        prmt_spec(self.mode, input.0, input.1, input.2 as u16) as u32
    }

    open spec fn spec_accepts(&self, input: (u32, u32, u32), output: u32) -> bool {
        output == self.spec_expected(input)
    }

    fn host_verify(&self, input: (u32, u32, u32), output: u32) -> (r: Result<(), u32>) {
        let expected = host_prmt(self.mode, input.0, input.1, input.2 as u16);
        if expected == output {
            Ok(())
        } else {
            Err(expected)
        }
    }
}

impl RangeTest for Prmt {
    open spec fn spec_max_value(&self) -> u32 {
        0xffff
    }

    open spec fn spec_generate(&self, index: u32) -> (u32, u32, u32) {
        (0x0403_0201u32, 0x0807_0605u32, index)
    }

    fn max_value(&self) -> (r: u32) {
        0xffff
    }

    fn generate(&self, index: u32) -> (r: (u32, u32, u32)) {
        (0x0403_0201, 0x0807_0605, index)
    }
}

/// Funnel shift, left or right, with a clamped or wrapped amount.
pub struct Shf {
    pub left: bool,
    pub clamp: bool,
}

impl TestCommon for Shf {
    type Input = (u32, u32, u32);

    type Output = u32;

    open spec fn spec_expected(&self, input: (u32, u32, u32)) -> u32 {
        shf_spec(input.0, input.1, input.2, self.left, self.clamp) as u32
    }

    open spec fn spec_accepts(&self, input: (u32, u32, u32), output: u32) -> bool {
        output == self.spec_expected(input)
    }

    fn host_verify(&self, input: (u32, u32, u32), output: u32) -> (r: Result<(), u32>) {
        let expected = shf(input.0, input.1, input.2, self.left, self.clamp);
        if expected == output {
            Ok(())
        } else {
            Err(expected)
        }
    }
}

/// 16-bit left shift over every value and amount.
pub struct Shl;

impl TestCommon for Shl {
    type Input = (u16, u16);

    type Output = u16;

    open spec fn spec_expected(&self, input: (u16, u16)) -> u16 {
        (if input.1 >= 16 { 0 } else { (input.0 * vstd::arithmetic::power2::pow2(input.1 as nat)) % 0x1_0000 }) as u16
    }

    open spec fn spec_accepts(&self, input: (u16, u16), output: u16) -> bool {
        output == self.spec_expected(input)
    }

    fn host_verify(&self, input: (u16, u16), output: u16) -> (r: Result<(), u16>) {
        let expected = shl_b16(input.0, input.1);
        if expected == output {
            Ok(())
        } else {
            Err(expected)
        }
    }
}

impl RangeTest for Shl {
    open spec fn spec_max_value(&self) -> u32 {
        0xffff_ffff
    }

    open spec fn spec_generate(&self, index: u32) -> (u16, u16) {
        ((index % 0x1_0000) as u16, (index / 0x1_0000) as u16)
    }

    fn max_value(&self) -> (r: u32) {
        0xffff_ffff
    }

    fn generate(&self, index: u32) -> (r: (u16, u16)) {
        ((index % 0x1_0000) as u16, (index / 0x1_0000) as u16)
    }
}

/// 16-bit right shift, logical for `u16` and arithmetic for `i16`.
pub struct Shr<T> {
    pub marker: PhantomData<T>,
}

impl<T> Shr<T> {
    pub fn new() -> Self {
        Shr { marker: PhantomData }
    }
}

impl TestCommon for Shr<u16> {
    type Input = (u16, u16);

    type Output = u16;

    open spec fn spec_expected(&self, input: (u16, u16)) -> u16 {
        (if input.1 >= 16 { 0 } else { input.0 as int / vstd::arithmetic::power2::pow2(input.1 as nat) as int }) as u16
    }

    open spec fn spec_accepts(&self, input: (u16, u16), output: u16) -> bool {
        output == self.spec_expected(input)
    }

    fn host_verify(&self, input: (u16, u16), output: u16) -> (r: Result<(), u16>) {
        let expected = shr_u16(input.0, input.1);
        if expected == output {
            Ok(())
        } else {
            Err(expected)
        }
    }
}

impl RangeTest for Shr<u16> {
    open spec fn spec_max_value(&self) -> u32 {
        0xffff_ffff
    }

    open spec fn spec_generate(&self, index: u32) -> (u16, u16) {
        ((index % 0x1_0000) as u16, (index / 0x1_0000) as u16)
    }

    fn max_value(&self) -> (r: u32) {
        0xffff_ffff
    }

    fn generate(&self, index: u32) -> (r: (u16, u16)) {
        ((index % 0x1_0000) as u16, (index / 0x1_0000) as u16)
    }
}

impl TestCommon for Shr<i16> {
    type Input = (i16, u16);

    type Output = i16;

    open spec fn spec_expected(&self, input: (i16, u16)) -> i16 {
        (input.0 as int / vstd::arithmetic::power2::pow2(if input.1 >= 16 { 15 } else { input.1 as nat }) as int) as i16
    }

    open spec fn spec_accepts(&self, input: (i16, u16), output: i16) -> bool {
        output == self.spec_expected(input)
    }

    fn host_verify(&self, input: (i16, u16), output: i16) -> (r: Result<(), i16>) {
        let expected = shr_s16(input.0, input.1);
        if expected == output {
            Ok(())
        } else {
            Err(expected)
        }
    }
}

impl RangeTest for Shr<i16> {
    open spec fn spec_max_value(&self) -> u32 {
        0xffff_ffff
    }

    open spec fn spec_generate(&self, index: u32) -> (i16, u16) {
        (#[verifier::truncate] ((index % 0x1_0000) as u16 as i16), (index / 0x1_0000) as u16)
    }

    fn max_value(&self) -> (r: u32) {
        0xffff_ffff
    }

    fn generate(&self, index: u32) -> (r: (i16, u16)) {
        (((index % 0x1_0000) as u16) as i16, (index / 0x1_0000) as u16)
    }
}

/// Addition or subtraction with carry in, and optionally carry out.
pub struct AddcOrSubc {
    pub is_sub: bool,
    pub carry_out: bool,
    /// Whether the instruction is written for signed operands; the result is the same.
    pub signed: bool,
}

impl TestCommon for AddcOrSubc {
    type Input = (u32, u32, u32);

    type Output = u64;

    open spec fn spec_expected(&self, input: (u32, u32, u32)) -> u64 {
        addc_subc_spec(input.0, input.1, input.2, self.is_sub, self.carry_out) as u64
    }

    open spec fn spec_accepts(&self, input: (u32, u32, u32), output: u64) -> bool {
        output == self.spec_expected(input)
    }

    fn host_verify(&self, input: (u32, u32, u32), output: u64) -> (r: Result<(), u64>) {
        let expected = addc_subc(input.0, input.1, input.2, self.is_sub, self.carry_out);
        if expected == output {
            Ok(())
        } else {
            Err(expected)
        }
    }
}

/// Multiply-add with carry in, and optionally carry out.
pub struct Madc {
    pub carry_out: bool,
    /// Whether the instruction is written for signed operands; the result is the same.
    pub signed: bool,
}

impl TestCommon for Madc {
    type Input = (u32, u32, u32, u32);

    type Output = u64;

    open spec fn spec_expected(&self, input: (u32, u32, u32, u32)) -> u64 {
        madc_spec(input.0, input.1, input.2, input.3, self.carry_out) as u64
    }

    open spec fn spec_accepts(&self, input: (u32, u32, u32, u32), output: u64) -> bool {
        output == self.spec_expected(input)
    }

    fn host_verify(&self, input: (u32, u32, u32, u32), output: u64) -> (r: Result<(), u64>) {
        let expected = madc(input.0, input.1, input.2, input.3, self.carry_out);
        if expected == output {
            Ok(())
        } else {
            Err(expected)
        }
    }
}

/// Single-precision absolute value, optionally flushing subnormals.
pub struct Abs {
    pub ftz: bool,
}

impl TestCommon for Abs {
    type Input = F32;

    type Output = F32;

    open spec fn spec_expected(&self, input: F32) -> F32 {
        F32(flush_f32((input.0 % 0x8000_0000) as u32, self.ftz))
    }

    open spec fn spec_accepts(&self, input: F32, output: F32) -> bool {
        same_f32(self.spec_expected(input).0, output.0)
    }

    fn host_verify(&self, input: F32, output: F32) -> (r: Result<(), F32>) {
        let expected = abs_f32(input.0, self.ftz);
        let both_nan = crate::common::is_nan_f32(expected) && crate::common::is_nan_f32(output.0);
        if both_nan || expected == output.0 {
            Ok(())
        } else {
            Err(F32(expected))
        }
    }
}

impl RangeTest for Abs {
    open spec fn spec_max_value(&self) -> u32 {
        0xffff_ffff
    }

    open spec fn spec_generate(&self, index: u32) -> F32 {
        F32(index)
    }

    fn max_value(&self) -> (r: u32) {
        0xffff_ffff
    }

    fn generate(&self, index: u32) -> (r: F32) {
        F32(index)
    }
}

/// Single-precision negation, optionally flushing subnormals.
pub struct Neg {
    pub ftz: bool,
}

impl TestCommon for Neg {
    type Input = F32;

    type Output = F32;

    open spec fn spec_expected(&self, input: F32) -> F32 {
        F32(flush_f32(((input.0 as int + 0x8000_0000) % 0x1_0000_0000) as u32, self.ftz))
    }

    open spec fn spec_accepts(&self, input: F32, output: F32) -> bool {
        same_f32(self.spec_expected(input).0, output.0)
    }

    fn host_verify(&self, input: F32, output: F32) -> (r: Result<(), F32>) {
        let expected = neg_f32(input.0, self.ftz);
        let both_nan = crate::common::is_nan_f32(expected) && crate::common::is_nan_f32(output.0);
        if both_nan || expected == output.0 {
            Ok(())
        } else {
            Err(F32(expected))
        }
    }
}

impl RangeTest for Neg {
    open spec fn spec_max_value(&self) -> u32 {
        0xffff_ffff
    }

    open spec fn spec_generate(&self, index: u32) -> F32 {
        F32(index)
    }

    fn max_value(&self) -> (r: u32) {
        0xffff_ffff
    }

    fn generate(&self, index: u32) -> (r: F32) {
        F32(index)
    }
}

/// Classification of every single-precision value.
pub struct Testp<T> {
    pub mode: TestpMode,
    pub marker: PhantomData<T>,
}

impl<T> Testp<T> {
    pub fn new(mode: TestpMode) -> (r: Self)
        ensures
            r.mode == mode,
    {
        Testp { mode, marker: PhantomData }
    }
}

impl TestCommon for Testp<F32> {
    type Input = F32;

    type Output = u32;

    open spec fn spec_expected(&self, input: F32) -> u32 {
        if self.mode.holds(input.0) { 1u32 } else { 0u32 }
    }

    open spec fn spec_accepts(&self, input: F32, output: u32) -> bool {
        output == self.spec_expected(input)
    }

    fn host_verify(&self, input: F32, output: u32) -> (r: Result<(), u32>) {
        let expected = self.mode.test(input.0);
        if expected == output {
            Ok(())
        } else {
            Err(expected)
        }
    }
}

impl RangeTest for Testp<F32> {
    open spec fn spec_max_value(&self) -> u32 {
        0xffff_ffff
    }

    open spec fn spec_generate(&self, index: u32) -> F32 {
        F32(index)
    }

    fn max_value(&self) -> (r: u32) {
        0xffff_ffff
    }

    fn generate(&self, index: u32) -> (r: F32) {
        F32(index)
    }
}

/// Building a 16-bit operand kind from its bit pattern.
pub trait FromU16: Sized {
    spec fn spec_from_u16(n: u16) -> Self;

    spec fn spec_int(self) -> int;

    fn from_u16(n: u16) -> (r: Self)
        ensures
            r == Self::spec_from_u16(n),
    ;
}

impl FromU16 for u16 {
    open spec fn spec_from_u16(n: u16) -> Self {
        n
    }

    open spec fn spec_int(self) -> int {
        self as int
    }

    fn from_u16(n: u16) -> (r: Self) {
        n
    }
}

impl FromU16 for i16 {
    open spec fn spec_from_u16(n: u16) -> Self {
        #[verifier::truncate] (n as i16)
    }

    open spec fn spec_int(self) -> int {
        self as int
    }

    fn from_u16(n: u16) -> (r: Self) {
        n as i16
    }
}

/// `set` on integer operands of kind `T` with an integer destination, optionally combined
/// with a predicate operand.
pub struct SetIntTest<T, U> {
    pub cmp_op: Comparison,
    pub bool_input: Option<(BoolOp, bool)>,
    pub marker: PhantomData<(T, U)>,
}

impl<T, U> SetIntTest<T, U> {
    pub fn new(cmp_op: Comparison, optional_input: Option<(BoolOp, bool)>) -> (r: Self)
        ensures
            r.cmp_op == cmp_op,
            r.bool_input == optional_input,
    {
        SetIntTest { cmp_op, bool_input: optional_input, marker: PhantomData }
    }
}

impl TestCommon for SetIntTest<u16, u32> {
    type Input = (u16, u16);

    type Output = u32;

    open spec fn spec_expected(&self, input: (u16, u16)) -> u32 {
        if combine_spec(self.cmp_op.relation(input.0 as int, input.1 as int), self.bool_input) { 0xffff_ffffu32 } else { 0u32 }
    }

    open spec fn spec_accepts(&self, input: (u16, u16), output: u32) -> bool {
        output == self.spec_expected(input)
    }

    fn host_verify(&self, input: (u16, u16), output: u32) -> (r: Result<(), u32>) {
        let expected = set_int_result(combine(self.cmp_op.cmp_int(input.0 as i128, input.1 as i128), self.bool_input));
        if expected == output {
            Ok(())
        } else {
            Err(expected)
        }
    }
}

impl RangeTest for SetIntTest<u16, u32> {
    open spec fn spec_max_value(&self) -> u32 {
        0xffff_ffff
    }

    open spec fn spec_generate(&self, index: u32) -> (u16, u16) {
        (u16::spec_from_u16((index / 0x1_0000) as u16), u16::spec_from_u16((index % 0x1_0000) as u16))
    }

    fn max_value(&self) -> (r: u32) {
        0xffff_ffff
    }

    fn generate(&self, index: u32) -> (r: (u16, u16)) {
        (u16::from_u16((index / 0x1_0000) as u16), u16::from_u16((index % 0x1_0000) as u16))
    }
}

impl TestCommon for SetIntTest<i16, u32> {
    type Input = (i16, i16);

    type Output = u32;

    open spec fn spec_expected(&self, input: (i16, i16)) -> u32 {
        if combine_spec(self.cmp_op.relation(input.0 as int, input.1 as int), self.bool_input) { 0xffff_ffffu32 } else { 0u32 }
    }

    open spec fn spec_accepts(&self, input: (i16, i16), output: u32) -> bool {
        output == self.spec_expected(input)
    }

    fn host_verify(&self, input: (i16, i16), output: u32) -> (r: Result<(), u32>) {
        let expected = set_int_result(combine(self.cmp_op.cmp_int(input.0 as i128, input.1 as i128), self.bool_input));
        if expected == output {
            Ok(())
        } else {
            Err(expected)
        }
    }
}

impl RangeTest for SetIntTest<i16, u32> {
    open spec fn spec_max_value(&self) -> u32 {
        0xffff_ffff
    }

    open spec fn spec_generate(&self, index: u32) -> (i16, i16) {
        (i16::spec_from_u16((index / 0x1_0000) as u16), i16::spec_from_u16((index % 0x1_0000) as u16))
    }

    fn max_value(&self) -> (r: u32) {
        0xffff_ffff
    }

    fn generate(&self, index: u32) -> (r: (i16, i16)) {
        (i16::from_u16((index / 0x1_0000) as u16), i16::from_u16((index % 0x1_0000) as u16))
    }
}

/// `set` on single-precision operands with a float destination, combined with a predicate.
pub struct SetFloatTest {
    pub cmp_op: Comparison,
    pub bool_op: BoolOp,
    pub ftz: bool,
}

impl TestCommon for SetFloatTest {
    type Input = (F32, F32, bool);

    type Output = F32;

    open spec fn spec_expected(&self, input: (F32, F32, bool)) -> F32 {
        F32(
            if self.bool_op.apply(self.cmp_op.spec_cmp_float(input.0.0, input.1.0, self.ftz), input.2) {
                F32_ONE
            } else {
                0u32
            },
        )
    }

    open spec fn spec_accepts(&self, input: (F32, F32, bool), output: F32) -> bool {
        output == self.spec_expected(input)
    }

    fn host_verify(&self, input: (F32, F32, bool), output: F32) -> (r: Result<(), F32>) {
        let expected = F32(set_f32(self.cmp_op, input.0.0, input.1.0, self.ftz, self.bool_op, input.2));
        if expected == output {
            Ok(())
        } else {
            Err(expected)
        }
    }
}

/// Conversion from kind `F` to kind `T` with rounding `rnd` and the flush and saturation
/// modifiers, over every value of `F`. Where the source is NaN and the destination an
/// integer, any result is accepted; a NaN result matches any NaN.
pub struct Cvt<T, F> {
    pub rnd: Rounding,
    pub ftz: bool,
    pub sat: bool,
    pub marker: PhantomData<(T, F)>,
}

impl<T, F> Cvt<T, F> {
    pub fn new(rnd: Rounding, ftz: bool, sat: bool) -> (r: Self)
        ensures
            r.rnd == rnd && r.ftz == ftz && r.sat == sat,
    {
        Cvt { rnd, ftz, sat, marker: PhantomData }
    }
}

impl TestCommon for Cvt<i16, F32> {
    type Input = F32;

    type Output = i16;

    open spec fn spec_expected(&self, input: F32) -> i16 {
        f32_to_int_spec(flush_f32(input.0, self.ftz), self.rnd, i16::MIN as int, i16::MAX as int) as i16
    }

    open spec fn spec_accepts(&self, input: F32, output: i16) -> bool {
        f32_is_nan(input.0) || output == self.spec_expected(input)
    }

    fn host_verify(&self, input: F32, output: i16) -> (r: Result<(), i16>) {
        if crate::common::is_nan_f32(input.0) {
            return Ok(());
        }
        let expected = f32_to_int(input.0, self.rnd, self.ftz, i16::MIN as i128, i16::MAX as i128) as i16;
        if expected == output {
            Ok(())
        } else {
            Err(expected)
        }
    }
}

impl RangeTest for Cvt<i16, F32> {
    open spec fn spec_max_value(&self) -> u32 {
        0xffff_ffff
    }

    open spec fn spec_generate(&self, index: u32) -> F32 {
        F32(index)
    }

    fn max_value(&self) -> (r: u32) {
        0xffff_ffff
    }

    fn generate(&self, index: u32) -> (r: F32) {
        F32(index)
    }
}

impl TestCommon for Cvt<u16, F32> {
    type Input = F32;

    type Output = u16;

    open spec fn spec_expected(&self, input: F32) -> u16 {
        f32_to_int_spec(flush_f32(input.0, self.ftz), self.rnd, 0, u16::MAX as int) as u16
    }

    open spec fn spec_accepts(&self, input: F32, output: u16) -> bool {
        f32_is_nan(input.0) || output == self.spec_expected(input)
    }

    fn host_verify(&self, input: F32, output: u16) -> (r: Result<(), u16>) {
        if crate::common::is_nan_f32(input.0) {
            return Ok(());
        }
        let expected = f32_to_int(input.0, self.rnd, self.ftz, 0, u16::MAX as i128) as u16;
        if expected == output {
            Ok(())
        } else {
            Err(expected)
        }
    }
}

impl RangeTest for Cvt<u16, F32> {
    open spec fn spec_max_value(&self) -> u32 {
        0xffff_ffff
    }

    open spec fn spec_generate(&self, index: u32) -> F32 {
        F32(index)
    }

    fn max_value(&self) -> (r: u32) {
        0xffff_ffff
    }

    fn generate(&self, index: u32) -> (r: F32) {
        F32(index)
    }
}

impl TestCommon for Cvt<i32, F32> {
    type Input = F32;

    type Output = i32;

    open spec fn spec_expected(&self, input: F32) -> i32 {
        f32_to_int_spec(flush_f32(input.0, self.ftz), self.rnd, i32::MIN as int, i32::MAX as int) as i32
    }

    open spec fn spec_accepts(&self, input: F32, output: i32) -> bool {
        f32_is_nan(input.0) || output == self.spec_expected(input)
    }

    fn host_verify(&self, input: F32, output: i32) -> (r: Result<(), i32>) {
        if crate::common::is_nan_f32(input.0) {
            return Ok(());
        }
        let expected = f32_to_int(input.0, self.rnd, self.ftz, i32::MIN as i128, i32::MAX as i128) as i32;
        if expected == output {
            Ok(())
        } else {
            Err(expected)
        }
    }
}

impl RangeTest for Cvt<i32, F32> {
    open spec fn spec_max_value(&self) -> u32 {
        0xffff_ffff
    }

    open spec fn spec_generate(&self, index: u32) -> F32 {
        F32(index)
    }

    fn max_value(&self) -> (r: u32) {
        0xffff_ffff
    }

    fn generate(&self, index: u32) -> (r: F32) {
        F32(index)
    }
}

impl TestCommon for Cvt<u32, F32> {
    type Input = F32;

    type Output = u32;

    open spec fn spec_expected(&self, input: F32) -> u32 {
        f32_to_int_spec(flush_f32(input.0, self.ftz), self.rnd, 0, u32::MAX as int) as u32
    }

    open spec fn spec_accepts(&self, input: F32, output: u32) -> bool {
        f32_is_nan(input.0) || output == self.spec_expected(input)
    }

    fn host_verify(&self, input: F32, output: u32) -> (r: Result<(), u32>) {
        if crate::common::is_nan_f32(input.0) {
            return Ok(());
        }
        let expected = f32_to_int(input.0, self.rnd, self.ftz, 0, u32::MAX as i128) as u32;
        if expected == output {
            Ok(())
        } else {
            Err(expected)
        }
    }
}

impl RangeTest for Cvt<u32, F32> {
    open spec fn spec_max_value(&self) -> u32 {
        0xffff_ffff
    }

    open spec fn spec_generate(&self, index: u32) -> F32 {
        F32(index)
    }

    fn max_value(&self) -> (r: u32) {
        0xffff_ffff
    }

    fn generate(&self, index: u32) -> (r: F32) {
        F32(index)
    }
}

impl TestCommon for Cvt<i64, F32> {
    type Input = F32;

    type Output = i64;

    open spec fn spec_expected(&self, input: F32) -> i64 {
        f32_to_int_spec(flush_f32(input.0, self.ftz), self.rnd, i64::MIN as int, i64::MAX as int) as i64
    }

    open spec fn spec_accepts(&self, input: F32, output: i64) -> bool {
        f32_is_nan(input.0) || output == self.spec_expected(input)
    }

    fn host_verify(&self, input: F32, output: i64) -> (r: Result<(), i64>) {
        if crate::common::is_nan_f32(input.0) {
            return Ok(());
        }
        let expected = f32_to_int(input.0, self.rnd, self.ftz, i64::MIN as i128, i64::MAX as i128) as i64;
        if expected == output {
            Ok(())
        } else {
            Err(expected)
        }
    }
}

impl RangeTest for Cvt<i64, F32> {
    open spec fn spec_max_value(&self) -> u32 {
        0xffff_ffff
    }

    open spec fn spec_generate(&self, index: u32) -> F32 {
        F32(index)
    }

    fn max_value(&self) -> (r: u32) {
        0xffff_ffff
    }

    fn generate(&self, index: u32) -> (r: F32) {
        F32(index)
    }
}

impl TestCommon for Cvt<u64, F32> {
    type Input = F32;

    type Output = u64;

    open spec fn spec_expected(&self, input: F32) -> u64 {
        f32_to_int_spec(flush_f32(input.0, self.ftz), self.rnd, 0, u64::MAX as int) as u64
    }

    open spec fn spec_accepts(&self, input: F32, output: u64) -> bool {
        f32_is_nan(input.0) || output == self.spec_expected(input)
    }

    fn host_verify(&self, input: F32, output: u64) -> (r: Result<(), u64>) {
        if crate::common::is_nan_f32(input.0) {
            return Ok(());
        }
        let expected = f32_to_int(input.0, self.rnd, self.ftz, 0, u64::MAX as i128) as u64;
        if expected == output {
            Ok(())
        } else {
            Err(expected)
        }
    }
}

impl RangeTest for Cvt<u64, F32> {
    open spec fn spec_max_value(&self) -> u32 {
        0xffff_ffff
    }

    open spec fn spec_generate(&self, index: u32) -> F32 {
        F32(index)
    }

    fn max_value(&self) -> (r: u32) {
        0xffff_ffff
    }

    fn generate(&self, index: u32) -> (r: F32) {
        F32(index)
    }
}

impl TestCommon for Cvt<i16, F16> {
    type Input = F16;

    type Output = i16;

    open spec fn spec_expected(&self, input: F16) -> i16 {
        f16_to_int_spec(crate::common::flush_f16(input.0, self.ftz), self.rnd, i16::MIN as int, i16::MAX as int) as i16
    }

    open spec fn spec_accepts(&self, input: F16, output: i16) -> bool {
        crate::common::f16_is_nan(input.0) || output == self.spec_expected(input)
    }

    fn host_verify(&self, input: F16, output: i16) -> (r: Result<(), i16>) {
        let mut h = input.0;
        crate::common::flush_to_zero_f16(&mut h, self.ftz);
        if crate::common::is_nan_f16(h) {
            return Ok(());
        }
        let expected = f16_to_int(h, self.rnd, i16::MIN as i128, i16::MAX as i128) as i16;
        if expected == output {
            Ok(())
        } else {
            Err(expected)
        }
    }
}

impl RangeTest for Cvt<i16, F16> {
    open spec fn spec_max_value(&self) -> u32 {
        0xffff
    }

    open spec fn spec_generate(&self, index: u32) -> F16 {
        F16(index as u16)
    }

    fn max_value(&self) -> (r: u32) {
        0xffff
    }

    fn generate(&self, index: u32) -> (r: F16) {
        F16(index as u16)
    }
}

impl TestCommon for Cvt<u16, F16> {
    type Input = F16;

    type Output = u16;

    open spec fn spec_expected(&self, input: F16) -> u16 {
        f16_to_int_spec(crate::common::flush_f16(input.0, self.ftz), self.rnd, 0, u16::MAX as int) as u16
    }

    open spec fn spec_accepts(&self, input: F16, output: u16) -> bool {
        crate::common::f16_is_nan(input.0) || output == self.spec_expected(input)
    }

    fn host_verify(&self, input: F16, output: u16) -> (r: Result<(), u16>) {
        let mut h = input.0;
        crate::common::flush_to_zero_f16(&mut h, self.ftz);
        if crate::common::is_nan_f16(h) {
            return Ok(());
        }
        let expected = f16_to_int(h, self.rnd, 0, u16::MAX as i128) as u16;
        if expected == output {
            Ok(())
        } else {
            Err(expected)
        }
    }
}

impl RangeTest for Cvt<u16, F16> {
    open spec fn spec_max_value(&self) -> u32 {
        0xffff
    }

    open spec fn spec_generate(&self, index: u32) -> F16 {
        F16(index as u16)
    }

    fn max_value(&self) -> (r: u32) {
        0xffff
    }

    fn generate(&self, index: u32) -> (r: F16) {
        F16(index as u16)
    }
}

impl TestCommon for Cvt<i32, F16> {
    type Input = F16;

    type Output = i32;

    open spec fn spec_expected(&self, input: F16) -> i32 {
        f16_to_int_spec(crate::common::flush_f16(input.0, self.ftz), self.rnd, i32::MIN as int, i32::MAX as int) as i32
    }

    open spec fn spec_accepts(&self, input: F16, output: i32) -> bool {
        crate::common::f16_is_nan(input.0) || output == self.spec_expected(input)
    }

    fn host_verify(&self, input: F16, output: i32) -> (r: Result<(), i32>) {
        let mut h = input.0;
        crate::common::flush_to_zero_f16(&mut h, self.ftz);
        if crate::common::is_nan_f16(h) {
            return Ok(());
        }
        let expected = f16_to_int(h, self.rnd, i32::MIN as i128, i32::MAX as i128) as i32;
        if expected == output {
            Ok(())
        } else {
            Err(expected)
        }
    }
}

impl RangeTest for Cvt<i32, F16> {
    open spec fn spec_max_value(&self) -> u32 {
        0xffff
    }

    open spec fn spec_generate(&self, index: u32) -> F16 {
        F16(index as u16)
    }

    fn max_value(&self) -> (r: u32) {
        0xffff
    }

    fn generate(&self, index: u32) -> (r: F16) {
        F16(index as u16)
    }
}

impl TestCommon for Cvt<u32, F16> {
    type Input = F16;

    type Output = u32;

    open spec fn spec_expected(&self, input: F16) -> u32 {
        f16_to_int_spec(crate::common::flush_f16(input.0, self.ftz), self.rnd, 0, u32::MAX as int) as u32
    }

    open spec fn spec_accepts(&self, input: F16, output: u32) -> bool {
        crate::common::f16_is_nan(input.0) || output == self.spec_expected(input)
    }

    fn host_verify(&self, input: F16, output: u32) -> (r: Result<(), u32>) {
        let mut h = input.0;
        crate::common::flush_to_zero_f16(&mut h, self.ftz);
        if crate::common::is_nan_f16(h) {
            return Ok(());
        }
        let expected = f16_to_int(h, self.rnd, 0, u32::MAX as i128) as u32;
        if expected == output {
            Ok(())
        } else {
            Err(expected)
        }
    }
}

impl RangeTest for Cvt<u32, F16> {
    open spec fn spec_max_value(&self) -> u32 {
        0xffff
    }

    open spec fn spec_generate(&self, index: u32) -> F16 {
        F16(index as u16)
    }

    fn max_value(&self) -> (r: u32) {
        0xffff
    }

    fn generate(&self, index: u32) -> (r: F16) {
        F16(index as u16)
    }
}

impl TestCommon for Cvt<i64, F16> {
    type Input = F16;

    type Output = i64;

    open spec fn spec_expected(&self, input: F16) -> i64 {
        f16_to_int_spec(crate::common::flush_f16(input.0, self.ftz), self.rnd, i64::MIN as int, i64::MAX as int) as i64
    }

    open spec fn spec_accepts(&self, input: F16, output: i64) -> bool {
        crate::common::f16_is_nan(input.0) || output == self.spec_expected(input)
    }

    fn host_verify(&self, input: F16, output: i64) -> (r: Result<(), i64>) {
        let mut h = input.0;
        crate::common::flush_to_zero_f16(&mut h, self.ftz);
        if crate::common::is_nan_f16(h) {
            return Ok(());
        }
        let expected = f16_to_int(h, self.rnd, i64::MIN as i128, i64::MAX as i128) as i64;
        if expected == output {
            Ok(())
        } else {
            Err(expected)
        }
    }
}

impl RangeTest for Cvt<i64, F16> {
    open spec fn spec_max_value(&self) -> u32 {
        0xffff
    }

    open spec fn spec_generate(&self, index: u32) -> F16 {
        F16(index as u16)
    }

    fn max_value(&self) -> (r: u32) {
        0xffff
    }

    fn generate(&self, index: u32) -> (r: F16) {
        F16(index as u16)
    }
}

impl TestCommon for Cvt<u64, F16> {
    type Input = F16;

    type Output = u64;

    open spec fn spec_expected(&self, input: F16) -> u64 {
        f16_to_int_spec(crate::common::flush_f16(input.0, self.ftz), self.rnd, 0, u64::MAX as int) as u64
    }

    open spec fn spec_accepts(&self, input: F16, output: u64) -> bool {
        crate::common::f16_is_nan(input.0) || output == self.spec_expected(input)
    }

    fn host_verify(&self, input: F16, output: u64) -> (r: Result<(), u64>) {
        let mut h = input.0;
        crate::common::flush_to_zero_f16(&mut h, self.ftz);
        if crate::common::is_nan_f16(h) {
            return Ok(());
        }
        let expected = f16_to_int(h, self.rnd, 0, u64::MAX as i128) as u64;
        if expected == output {
            Ok(())
        } else {
            Err(expected)
        }
    }
}

impl RangeTest for Cvt<u64, F16> {
    open spec fn spec_max_value(&self) -> u32 {
        0xffff
    }

    open spec fn spec_generate(&self, index: u32) -> F16 {
        F16(index as u16)
    }

    fn max_value(&self) -> (r: u32) {
        0xffff
    }

    fn generate(&self, index: u32) -> (r: F16) {
        F16(index as u16)
    }
}

impl TestCommon for Cvt<F32, F32> {
    type Input = F32;

    type Output = F32;

    open spec fn spec_expected(&self, input: F32) -> F32 {
        F32(cvt_f32_f32_spec(input.0, self.rnd, self.ftz, self.sat))
    }

    open spec fn spec_accepts(&self, input: F32, output: F32) -> bool {
        let e = self.spec_expected(input).0;
        (f32_is_nan(e) && f32_is_nan(output.0)) || e == output.0
    }

    fn host_verify(&self, input: F32, output: F32) -> (r: Result<(), F32>) {
        let e = cvt_f32_f32(input.0, self.rnd, self.ftz, self.sat);
        if (crate::common::is_nan_f32(e) && crate::common::is_nan_f32(output.0)) || e == output.0 {
            Ok(())
        } else {
            Err(F32(e))
        }
    }
}

impl RangeTest for Cvt<F32, F32> {
    open spec fn spec_max_value(&self) -> u32 {
        0xffff_ffff
    }

    open spec fn spec_generate(&self, index: u32) -> F32 {
        F32(index)
    }

    fn max_value(&self) -> (r: u32) {
        0xffff_ffff
    }

    fn generate(&self, index: u32) -> (r: F32) {
        F32(index)
    }
}

impl TestCommon for Cvt<F16, F16> {
    type Input = F16;

    type Output = F16;

    open spec fn spec_expected(&self, input: F16) -> F16 {
        F16(cvt_f16_f16_spec(input.0, self.rnd, self.sat))
    }

    open spec fn spec_accepts(&self, input: F16, output: F16) -> bool {
        let e = self.spec_expected(input).0;
        (crate::common::f16_is_nan(e) && crate::common::f16_is_nan(output.0)) || e == output.0
    }

    fn host_verify(&self, input: F16, output: F16) -> (r: Result<(), F16>) {
        let e = cvt_f16_f16(input.0, self.rnd, self.sat);
        if (crate::common::is_nan_f16(e) && crate::common::is_nan_f16(output.0)) || e == output.0 {
            Ok(())
        } else {
            Err(F16(e))
        }
    }
}

impl RangeTest for Cvt<F16, F16> {
    open spec fn spec_max_value(&self) -> u32 {
        0xffff
    }

    open spec fn spec_generate(&self, index: u32) -> F16 {
        F16(index as u16)
    }

    fn max_value(&self) -> (r: u32) {
        0xffff
    }

    fn generate(&self, index: u32) -> (r: F16) {
        F16(index as u16)
    }
}

/// Saturating packing conversion of two 32-bit values into bytes of kind `T`.
pub struct CvtPack<T> {
    pub marker: PhantomData<T>,
}

impl<T> CvtPack<T> {
    pub fn new() -> Self {
        CvtPack { marker: PhantomData }
    }
}

impl TestCommon for CvtPack<u8> {
    type Input = (i32, i32, u32);

    type Output = u32;

    open spec fn spec_expected(&self, input: (i32, i32, u32)) -> u32 {
        cvt_pack_spec(input.0, input.1, input.2, false) as u32
    }

    open spec fn spec_accepts(&self, input: (i32, i32, u32), output: u32) -> bool {
        output == self.spec_expected(input)
    }

    fn host_verify(&self, input: (i32, i32, u32), output: u32) -> (r: Result<(), u32>) {
        let expected = cvt_pack_sat(input.0, input.1, input.2, false);
        if expected == output {
            Ok(())
        } else {
            Err(expected)
        }
    }
}

impl TestCommon for CvtPack<i8> {
    type Input = (i32, i32, u32);

    type Output = u32;

    open spec fn spec_expected(&self, input: (i32, i32, u32)) -> u32 {
        cvt_pack_spec(input.0, input.1, input.2, true) as u32
    }

    open spec fn spec_accepts(&self, input: (i32, i32, u32), output: u32) -> bool {
        output == self.spec_expected(input)
    }

    fn host_verify(&self, input: (i32, i32, u32), output: u32) -> (r: Result<(), u32>) {
        let expected = cvt_pack_sat(input.0, input.1, input.2, true);
        if expected == output {
            Ok(())
        } else {
            Err(expected)
        }
    }
}

/// Vector shift right of a source of kind `A` into a destination of kind `D`, with a
/// clamped or wrapped amount, optional saturation and an optional addition of `c`.
pub struct Vshr<D, A> {
    pub clamp: bool,
    pub sat: bool,
    pub add: bool,
    pub marker: PhantomData<(D, A)>,
}

impl<D, A> Vshr<D, A> {
    pub fn new(clamp: bool, sat: bool, add: bool) -> (r: Self)
        ensures
            r.clamp == clamp && r.sat == sat && r.add == add,
    {
        Vshr { clamp, sat, add, marker: PhantomData }
    }
}

impl TestCommon for Vshr<u32, u32> {
    type Input = (u32, u32, u32);

    type Output = u32;

    open spec fn spec_expected(&self, input: (u32, u32, u32)) -> u32 {
        vshr_spec(input.0 as int, false, input.1, input.2 as int, false, self.clamp, self.sat, self.add) as u32
    }

    open spec fn spec_accepts(&self, input: (u32, u32, u32), output: u32) -> bool {
        output == self.spec_expected(input)
    }

    fn host_verify(&self, input: (u32, u32, u32), output: u32) -> (r: Result<(), u32>) {
        let expected = vshr(input.0 as i64, false, input.1, input.2 as i64, false, self.clamp, self.sat, self.add) as u32;
        if expected == output {
            Ok(())
        } else {
            Err(expected)
        }
    }
}

impl TestCommon for Vshr<u32, i32> {
    type Input = (i32, u32, u32);

    type Output = u32;

    open spec fn spec_expected(&self, input: (i32, u32, u32)) -> u32 {
        vshr_spec(input.0 as int, true, input.1, input.2 as int, false, self.clamp, self.sat, self.add) as u32
    }

    open spec fn spec_accepts(&self, input: (i32, u32, u32), output: u32) -> bool {
        output == self.spec_expected(input)
    }

    fn host_verify(&self, input: (i32, u32, u32), output: u32) -> (r: Result<(), u32>) {
        let expected = vshr(input.0 as i64, true, input.1, input.2 as i64, false, self.clamp, self.sat, self.add) as u32;
        if expected == output {
            Ok(())
        } else {
            Err(expected)
        }
    }
}

impl TestCommon for Vshr<i32, u32> {
    type Input = (u32, u32, i32);

    type Output = i32;

    open spec fn spec_expected(&self, input: (u32, u32, i32)) -> i32 {
        vshr_spec(input.0 as int, false, input.1, input.2 as int, true, self.clamp, self.sat, self.add) as i32
    }

    open spec fn spec_accepts(&self, input: (u32, u32, i32), output: i32) -> bool {
        output == self.spec_expected(input)
    }

    fn host_verify(&self, input: (u32, u32, i32), output: i32) -> (r: Result<(), i32>) {
        let expected = vshr(input.0 as i64, false, input.1, input.2 as i64, true, self.clamp, self.sat, self.add) as i32;
        if expected == output {
            Ok(())
        } else {
            Err(expected)
        }
    }
}

impl TestCommon for Vshr<i32, i32> {
    type Input = (i32, u32, i32);

    type Output = i32;

    open spec fn spec_expected(&self, input: (i32, u32, i32)) -> i32 {
        vshr_spec(input.0 as int, true, input.1, input.2 as int, true, self.clamp, self.sat, self.add) as i32
    }

    open spec fn spec_accepts(&self, input: (i32, u32, i32), output: i32) -> bool {
        output == self.spec_expected(input)
    }

    fn host_verify(&self, input: (i32, u32, i32), output: i32) -> (r: Result<(), i32>) {
        let expected = vshr(input.0 as i64, true, input.1, input.2 as i64, true, self.clamp, self.sat, self.add) as i32;
        if expected == output {
            Ok(())
        } else {
            Err(expected)
        }
    }
}

/// Half-precision minimum or maximum over every pair of operands. Of two zeros of opposite
/// sign either is accepted, as their order is a matter of convention.
pub struct MinMax {
    pub max: bool,
    pub ftz: bool,
    pub nan: bool,
}

impl TestCommon for MinMax {
    type Input = (F16, F16);

    type Output = F16;

    open spec fn spec_expected(&self, input: (F16, F16)) -> F16 {
        F16(minmax_f16_spec(input.0.0, input.1.0, self.max, self.nan, self.ftz))
    }

    open spec fn spec_accepts(&self, input: (F16, F16), output: F16) -> bool {
        let e = self.spec_expected(input).0;
        (crate::common::f16_is_nan(e) && crate::common::f16_is_nan(output.0)) || e == output.0
            || (e % 0x8000 == 0 && output.0 % 0x8000 == 0)
    }

    fn host_verify(&self, input: (F16, F16), output: F16) -> (r: Result<(), F16>) {
        let e = minmax_f16(input.0.0, input.1.0, self.max, self.nan, self.ftz);
        let both_nan = crate::common::is_nan_f16(e) && crate::common::is_nan_f16(output.0);
        if both_nan || e == output.0 || (e % 0x8000 == 0 && output.0 % 0x8000 == 0) {
            Ok(())
        } else {
            Err(F16(e))
        }
    }
}

impl RangeTest for MinMax {
    open spec fn spec_max_value(&self) -> u32 {
        0xffff_ffff
    }

    open spec fn spec_generate(&self, index: u32) -> (F16, F16) {
        (F16((index % 0x1_0000) as u16), F16((index / 0x1_0000) as u16))
    }

    fn max_value(&self) -> (r: u32) {
        0xffff_ffff
    }

    fn generate(&self, index: u32) -> (r: (F16, F16)) {
        (F16((index % 0x1_0000) as u16), F16((index / 0x1_0000) as u16))
    }
}

/// Conversion of every single-precision value to half precision with rounding, flush and
/// saturation modifiers; NaN results match any NaN.
pub struct CvtF16 {
    pub rnd: Rounding,
    pub ftz: bool,
    pub sat: bool,
}

impl TestCommon for CvtF16 {
    type Input = F32;

    type Output = F16;

    open spec fn spec_expected(&self, input: F32) -> F16 {
        F16(cvt_f16_f32_full_spec(input.0, self.rnd, self.ftz, self.sat))
    }

    open spec fn spec_accepts(&self, input: F32, output: F16) -> bool {
        let e = self.spec_expected(input).0;
        (crate::common::f16_is_nan(e) && crate::common::f16_is_nan(output.0)) || e == output.0
    }

    fn host_verify(&self, input: F32, output: F16) -> (r: Result<(), F16>) {
        let e = cvt_f16_f32_full(input.0, self.rnd, self.ftz, self.sat);
        if (crate::common::is_nan_f16(e) && crate::common::is_nan_f16(output.0)) || e == output.0 {
            Ok(())
        } else {
            Err(F16(e))
        }
    }
}

impl RangeTest for CvtF16 {
    open spec fn spec_max_value(&self) -> u32 {
        0xffff_ffff
    }

    open spec fn spec_generate(&self, index: u32) -> F32 {
        F32(index)
    }

    fn max_value(&self) -> (r: u32) {
        0xffff_ffff
    }

    fn generate(&self, index: u32) -> (r: F32) {
        F32(index)
    }
}

/// Integer-to-integer conversion from kind `F` to kind `T` over every source value,
/// saturating or truncating.
pub struct CvtInt<T, F> {
    pub sat: bool,
    pub marker: PhantomData<(T, F)>,
}

impl<T, F> CvtInt<T, F> {
    pub fn new(sat: bool) -> (r: Self)
        ensures
            r.sat == sat,
    {
        CvtInt { sat, marker: PhantomData }
    }
}

impl TestCommon for CvtInt<i16, i16> {
    type Input = i16;

    type Output = i16;

    open spec fn spec_expected(&self, input: i16) -> i16 {
        int_convert_spec(input as int, 16, true, self.sat) as i16
    }

    open spec fn spec_accepts(&self, input: i16, output: i16) -> bool {
        output == self.spec_expected(input)
    }

    fn host_verify(&self, input: i16, output: i16) -> (r: Result<(), i16>) {
        let expected = int_convert(input as i128, 16, true, self.sat) as i16;
        if expected == output {
            Ok(())
        } else {
            Err(expected)
        }
    }
}

impl RangeTest for CvtInt<i16, i16> {
    open spec fn spec_max_value(&self) -> u32 {
        0xffff
    }

    open spec fn spec_generate(&self, index: u32) -> i16 {
        #[verifier::truncate] ((index % 0x10000) as u16 as i16)
    }

    fn max_value(&self) -> (r: u32) {
        0xffff
    }

    fn generate(&self, index: u32) -> (r: i16) {
        ((index % 0x10000) as u16) as i16
    }
}

impl TestCommon for CvtInt<u16, i16> {
    type Input = i16;

    type Output = u16;

    open spec fn spec_expected(&self, input: i16) -> u16 {
        int_convert_spec(input as int, 16, false, self.sat) as u16
    }

    open spec fn spec_accepts(&self, input: i16, output: u16) -> bool {
        output == self.spec_expected(input)
    }

    fn host_verify(&self, input: i16, output: u16) -> (r: Result<(), u16>) {
        let expected = int_convert(input as i128, 16, false, self.sat) as u16;
        if expected == output {
            Ok(())
        } else {
            Err(expected)
        }
    }
}

impl RangeTest for CvtInt<u16, i16> {
    open spec fn spec_max_value(&self) -> u32 {
        0xffff
    }

    open spec fn spec_generate(&self, index: u32) -> i16 {
        #[verifier::truncate] ((index % 0x10000) as u16 as i16)
    }

    fn max_value(&self) -> (r: u32) {
        0xffff
    }

    fn generate(&self, index: u32) -> (r: i16) {
        ((index % 0x10000) as u16) as i16
    }
}

impl TestCommon for CvtInt<i32, i16> {
    type Input = i16;

    type Output = i32;

    open spec fn spec_expected(&self, input: i16) -> i32 {
        int_convert_spec(input as int, 32, true, self.sat) as i32
    }

    open spec fn spec_accepts(&self, input: i16, output: i32) -> bool {
        output == self.spec_expected(input)
    }

    fn host_verify(&self, input: i16, output: i32) -> (r: Result<(), i32>) {
        let expected = int_convert(input as i128, 32, true, self.sat) as i32;
        if expected == output {
            Ok(())
        } else {
            Err(expected)
        }
    }
}

impl RangeTest for CvtInt<i32, i16> {
    open spec fn spec_max_value(&self) -> u32 {
        0xffff
    }

    open spec fn spec_generate(&self, index: u32) -> i16 {
        #[verifier::truncate] ((index % 0x10000) as u16 as i16)
    }

    fn max_value(&self) -> (r: u32) {
        0xffff
    }

    fn generate(&self, index: u32) -> (r: i16) {
        ((index % 0x10000) as u16) as i16
    }
}

impl TestCommon for CvtInt<u32, i16> {
    type Input = i16;

    type Output = u32;

    open spec fn spec_expected(&self, input: i16) -> u32 {
        int_convert_spec(input as int, 32, false, self.sat) as u32
    }

    open spec fn spec_accepts(&self, input: i16, output: u32) -> bool {
        output == self.spec_expected(input)
    }

    fn host_verify(&self, input: i16, output: u32) -> (r: Result<(), u32>) {
        let expected = int_convert(input as i128, 32, false, self.sat) as u32;
        if expected == output {
            Ok(())
        } else {
            Err(expected)
        }
    }
}

impl RangeTest for CvtInt<u32, i16> {
    open spec fn spec_max_value(&self) -> u32 {
        0xffff
    }

    open spec fn spec_generate(&self, index: u32) -> i16 {
        #[verifier::truncate] ((index % 0x10000) as u16 as i16)
    }

    fn max_value(&self) -> (r: u32) {
        0xffff
    }

    fn generate(&self, index: u32) -> (r: i16) {
        ((index % 0x10000) as u16) as i16
    }
}

impl TestCommon for CvtInt<i64, i16> {
    type Input = i16;

    type Output = i64;

    open spec fn spec_expected(&self, input: i16) -> i64 {
        int_convert_spec(input as int, 64, true, self.sat) as i64
    }

    open spec fn spec_accepts(&self, input: i16, output: i64) -> bool {
        output == self.spec_expected(input)
    }

    fn host_verify(&self, input: i16, output: i64) -> (r: Result<(), i64>) {
        let expected = int_convert(input as i128, 64, true, self.sat) as i64;
        if expected == output {
            Ok(())
        } else {
            Err(expected)
        }
    }
}

impl RangeTest for CvtInt<i64, i16> {
    open spec fn spec_max_value(&self) -> u32 {
        0xffff
    }

    open spec fn spec_generate(&self, index: u32) -> i16 {
        #[verifier::truncate] ((index % 0x10000) as u16 as i16)
    }

    fn max_value(&self) -> (r: u32) {
        0xffff
    }

    fn generate(&self, index: u32) -> (r: i16) {
        ((index % 0x10000) as u16) as i16
    }
}

impl TestCommon for CvtInt<u64, i16> {
    type Input = i16;

    type Output = u64;

    open spec fn spec_expected(&self, input: i16) -> u64 {
        int_convert_spec(input as int, 64, false, self.sat) as u64
    }

    open spec fn spec_accepts(&self, input: i16, output: u64) -> bool {
        output == self.spec_expected(input)
    }

    fn host_verify(&self, input: i16, output: u64) -> (r: Result<(), u64>) {
        let expected = int_convert(input as i128, 64, false, self.sat) as u64;
        if expected == output {
            Ok(())
        } else {
            Err(expected)
        }
    }
}

impl RangeTest for CvtInt<u64, i16> {
    open spec fn spec_max_value(&self) -> u32 {
        0xffff
    }

    open spec fn spec_generate(&self, index: u32) -> i16 {
        #[verifier::truncate] ((index % 0x10000) as u16 as i16)
    }

    fn max_value(&self) -> (r: u32) {
        0xffff
    }

    fn generate(&self, index: u32) -> (r: i16) {
        ((index % 0x10000) as u16) as i16
    }
}

impl TestCommon for CvtInt<i16, u16> {
    type Input = u16;

    type Output = i16;

    open spec fn spec_expected(&self, input: u16) -> i16 {
        int_convert_spec(input as int, 16, true, self.sat) as i16
    }

    open spec fn spec_accepts(&self, input: u16, output: i16) -> bool {
        output == self.spec_expected(input)
    }

    fn host_verify(&self, input: u16, output: i16) -> (r: Result<(), i16>) {
        let expected = int_convert(input as i128, 16, true, self.sat) as i16;
        if expected == output {
            Ok(())
        } else {
            Err(expected)
        }
    }
}

impl RangeTest for CvtInt<i16, u16> {
    open spec fn spec_max_value(&self) -> u32 {
        0xffff
    }

    open spec fn spec_generate(&self, index: u32) -> u16 {
        (index % 0x10000) as u16
    }

    fn max_value(&self) -> (r: u32) {
        0xffff
    }

    fn generate(&self, index: u32) -> (r: u16) {
        (index % 0x10000) as u16
    }
}

impl TestCommon for CvtInt<u16, u16> {
    type Input = u16;

    type Output = u16;

    open spec fn spec_expected(&self, input: u16) -> u16 {
        int_convert_spec(input as int, 16, false, self.sat) as u16
    }

    open spec fn spec_accepts(&self, input: u16, output: u16) -> bool {
        output == self.spec_expected(input)
    }

    fn host_verify(&self, input: u16, output: u16) -> (r: Result<(), u16>) {
        let expected = int_convert(input as i128, 16, false, self.sat) as u16;
        if expected == output {
            Ok(())
        } else {
            Err(expected)
        }
    }
}

impl RangeTest for CvtInt<u16, u16> {
    open spec fn spec_max_value(&self) -> u32 {
        0xffff
    }

    open spec fn spec_generate(&self, index: u32) -> u16 {
        (index % 0x10000) as u16
    }

    fn max_value(&self) -> (r: u32) {
        0xffff
    }

    fn generate(&self, index: u32) -> (r: u16) {
        (index % 0x10000) as u16
    }
}

impl TestCommon for CvtInt<i32, u16> {
    type Input = u16;

    type Output = i32;

    open spec fn spec_expected(&self, input: u16) -> i32 {
        int_convert_spec(input as int, 32, true, self.sat) as i32
    }

    open spec fn spec_accepts(&self, input: u16, output: i32) -> bool {
        output == self.spec_expected(input)
    }

    fn host_verify(&self, input: u16, output: i32) -> (r: Result<(), i32>) {
        let expected = int_convert(input as i128, 32, true, self.sat) as i32;
        if expected == output {
            Ok(())
        } else {
            Err(expected)
        }
    }
}

impl RangeTest for CvtInt<i32, u16> {
    open spec fn spec_max_value(&self) -> u32 {
        0xffff
    }

    open spec fn spec_generate(&self, index: u32) -> u16 {
        (index % 0x10000) as u16
    }

    fn max_value(&self) -> (r: u32) {
        0xffff
    }

    fn generate(&self, index: u32) -> (r: u16) {
        (index % 0x10000) as u16
    }
}

impl TestCommon for CvtInt<u32, u16> {
    type Input = u16;

    type Output = u32;

    open spec fn spec_expected(&self, input: u16) -> u32 {
        int_convert_spec(input as int, 32, false, self.sat) as u32
    }

    open spec fn spec_accepts(&self, input: u16, output: u32) -> bool {
        output == self.spec_expected(input)
    }

    fn host_verify(&self, input: u16, output: u32) -> (r: Result<(), u32>) {
        let expected = int_convert(input as i128, 32, false, self.sat) as u32;
        if expected == output {
            Ok(())
        } else {
            Err(expected)
        }
    }
}

impl RangeTest for CvtInt<u32, u16> {
    open spec fn spec_max_value(&self) -> u32 {
        0xffff
    }

    open spec fn spec_generate(&self, index: u32) -> u16 {
        (index % 0x10000) as u16
    }

    fn max_value(&self) -> (r: u32) {
        0xffff
    }

    fn generate(&self, index: u32) -> (r: u16) {
        (index % 0x10000) as u16
    }
}

impl TestCommon for CvtInt<i64, u16> {
    type Input = u16;

    type Output = i64;

    open spec fn spec_expected(&self, input: u16) -> i64 {
        int_convert_spec(input as int, 64, true, self.sat) as i64
    }

    open spec fn spec_accepts(&self, input: u16, output: i64) -> bool {
        output == self.spec_expected(input)
    }

    fn host_verify(&self, input: u16, output: i64) -> (r: Result<(), i64>) {
        let expected = int_convert(input as i128, 64, true, self.sat) as i64;
        if expected == output {
            Ok(())
        } else {
            Err(expected)
        }
    }
}

impl RangeTest for CvtInt<i64, u16> {
    open spec fn spec_max_value(&self) -> u32 {
        0xffff
    }

    open spec fn spec_generate(&self, index: u32) -> u16 {
        (index % 0x10000) as u16
    }

    fn max_value(&self) -> (r: u32) {
        0xffff
    }

    fn generate(&self, index: u32) -> (r: u16) {
        (index % 0x10000) as u16
    }
}

impl TestCommon for CvtInt<u64, u16> {
    type Input = u16;

    type Output = u64;

    open spec fn spec_expected(&self, input: u16) -> u64 {
        int_convert_spec(input as int, 64, false, self.sat) as u64
    }

    open spec fn spec_accepts(&self, input: u16, output: u64) -> bool {
        output == self.spec_expected(input)
    }

    fn host_verify(&self, input: u16, output: u64) -> (r: Result<(), u64>) {
        let expected = int_convert(input as i128, 64, false, self.sat) as u64;
        if expected == output {
            Ok(())
        } else {
            Err(expected)
        }
    }
}

impl RangeTest for CvtInt<u64, u16> {
    open spec fn spec_max_value(&self) -> u32 {
        0xffff
    }

    open spec fn spec_generate(&self, index: u32) -> u16 {
        (index % 0x10000) as u16
    }

    fn max_value(&self) -> (r: u32) {
        0xffff
    }

    fn generate(&self, index: u32) -> (r: u16) {
        (index % 0x10000) as u16
    }
}

impl TestCommon for CvtInt<i16, i32> {
    type Input = i32;

    type Output = i16;

    open spec fn spec_expected(&self, input: i32) -> i16 {
        int_convert_spec(input as int, 16, true, self.sat) as i16
    }

    open spec fn spec_accepts(&self, input: i32, output: i16) -> bool {
        output == self.spec_expected(input)
    }

    fn host_verify(&self, input: i32, output: i16) -> (r: Result<(), i16>) {
        let expected = int_convert(input as i128, 16, true, self.sat) as i16;
        if expected == output {
            Ok(())
        } else {
            Err(expected)
        }
    }
}

impl RangeTest for CvtInt<i16, i32> {
    open spec fn spec_max_value(&self) -> u32 {
        0xffffffff
    }

    open spec fn spec_generate(&self, index: u32) -> i32 {
        #[verifier::truncate] (index as i32)
    }

    fn max_value(&self) -> (r: u32) {
        0xffffffff
    }

    fn generate(&self, index: u32) -> (r: i32) {
        index as i32
    }
}

impl TestCommon for CvtInt<u16, i32> {
    type Input = i32;

    type Output = u16;

    open spec fn spec_expected(&self, input: i32) -> u16 {
        int_convert_spec(input as int, 16, false, self.sat) as u16
    }

    open spec fn spec_accepts(&self, input: i32, output: u16) -> bool {
        output == self.spec_expected(input)
    }

    fn host_verify(&self, input: i32, output: u16) -> (r: Result<(), u16>) {
        let expected = int_convert(input as i128, 16, false, self.sat) as u16;
        if expected == output {
            Ok(())
        } else {
            Err(expected)
        }
    }
}

impl RangeTest for CvtInt<u16, i32> {
    open spec fn spec_max_value(&self) -> u32 {
        0xffffffff
    }

    open spec fn spec_generate(&self, index: u32) -> i32 {
        #[verifier::truncate] (index as i32)
    }

    fn max_value(&self) -> (r: u32) {
        0xffffffff
    }

    fn generate(&self, index: u32) -> (r: i32) {
        index as i32
    }
}

impl TestCommon for CvtInt<i32, i32> {
    type Input = i32;

    type Output = i32;

    open spec fn spec_expected(&self, input: i32) -> i32 {
        int_convert_spec(input as int, 32, true, self.sat) as i32
    }

    open spec fn spec_accepts(&self, input: i32, output: i32) -> bool {
        output == self.spec_expected(input)
    }

    fn host_verify(&self, input: i32, output: i32) -> (r: Result<(), i32>) {
        let expected = int_convert(input as i128, 32, true, self.sat) as i32;
        if expected == output {
            Ok(())
        } else {
            Err(expected)
        }
    }
}

impl RangeTest for CvtInt<i32, i32> {
    open spec fn spec_max_value(&self) -> u32 {
        0xffffffff
    }

    open spec fn spec_generate(&self, index: u32) -> i32 {
        #[verifier::truncate] (index as i32)
    }

    fn max_value(&self) -> (r: u32) {
        0xffffffff
    }

    fn generate(&self, index: u32) -> (r: i32) {
        index as i32
    }
}

impl TestCommon for CvtInt<u32, i32> {
    type Input = i32;

    type Output = u32;

    open spec fn spec_expected(&self, input: i32) -> u32 {
        int_convert_spec(input as int, 32, false, self.sat) as u32
    }

    open spec fn spec_accepts(&self, input: i32, output: u32) -> bool {
        output == self.spec_expected(input)
    }

    fn host_verify(&self, input: i32, output: u32) -> (r: Result<(), u32>) {
        let expected = int_convert(input as i128, 32, false, self.sat) as u32;
        if expected == output {
            Ok(())
        } else {
            Err(expected)
        }
    }
}

impl RangeTest for CvtInt<u32, i32> {
    open spec fn spec_max_value(&self) -> u32 {
        0xffffffff
    }

    open spec fn spec_generate(&self, index: u32) -> i32 {
        #[verifier::truncate] (index as i32)
    }

    fn max_value(&self) -> (r: u32) {
        0xffffffff
    }

    fn generate(&self, index: u32) -> (r: i32) {
        index as i32
    }
}

impl TestCommon for CvtInt<i64, i32> {
    type Input = i32;

    type Output = i64;

    open spec fn spec_expected(&self, input: i32) -> i64 {
        int_convert_spec(input as int, 64, true, self.sat) as i64
    }

    open spec fn spec_accepts(&self, input: i32, output: i64) -> bool {
        output == self.spec_expected(input)
    }

    fn host_verify(&self, input: i32, output: i64) -> (r: Result<(), i64>) {
        let expected = int_convert(input as i128, 64, true, self.sat) as i64;
        if expected == output {
            Ok(())
        } else {
            Err(expected)
        }
    }
}

impl RangeTest for CvtInt<i64, i32> {
    open spec fn spec_max_value(&self) -> u32 {
        0xffffffff
    }

    open spec fn spec_generate(&self, index: u32) -> i32 {
        #[verifier::truncate] (index as i32)
    }

    fn max_value(&self) -> (r: u32) {
        0xffffffff
    }

    fn generate(&self, index: u32) -> (r: i32) {
        index as i32
    }
}

impl TestCommon for CvtInt<u64, i32> {
    type Input = i32;

    type Output = u64;

    open spec fn spec_expected(&self, input: i32) -> u64 {
        int_convert_spec(input as int, 64, false, self.sat) as u64
    }

    open spec fn spec_accepts(&self, input: i32, output: u64) -> bool {
        output == self.spec_expected(input)
    }

    fn host_verify(&self, input: i32, output: u64) -> (r: Result<(), u64>) {
        let expected = int_convert(input as i128, 64, false, self.sat) as u64;
        if expected == output {
            Ok(())
        } else {
            Err(expected)
        }
    }
}

impl RangeTest for CvtInt<u64, i32> {
    open spec fn spec_max_value(&self) -> u32 {
        0xffffffff
    }

    open spec fn spec_generate(&self, index: u32) -> i32 {
        #[verifier::truncate] (index as i32)
    }

    fn max_value(&self) -> (r: u32) {
        0xffffffff
    }

    fn generate(&self, index: u32) -> (r: i32) {
        index as i32
    }
}

impl TestCommon for CvtInt<i16, u32> {
    type Input = u32;

    type Output = i16;

    open spec fn spec_expected(&self, input: u32) -> i16 {
        int_convert_spec(input as int, 16, true, self.sat) as i16
    }

    open spec fn spec_accepts(&self, input: u32, output: i16) -> bool {
        output == self.spec_expected(input)
    }

    fn host_verify(&self, input: u32, output: i16) -> (r: Result<(), i16>) {
        let expected = int_convert(input as i128, 16, true, self.sat) as i16;
        if expected == output {
            Ok(())
        } else {
            Err(expected)
        }
    }
}

impl RangeTest for CvtInt<i16, u32> {
    open spec fn spec_max_value(&self) -> u32 {
        0xffffffff
    }

    open spec fn spec_generate(&self, index: u32) -> u32 {
        index
    }

    fn max_value(&self) -> (r: u32) {
        0xffffffff
    }

    fn generate(&self, index: u32) -> (r: u32) {
        index
    }
}

impl TestCommon for CvtInt<u16, u32> {
    type Input = u32;

    type Output = u16;

    open spec fn spec_expected(&self, input: u32) -> u16 {
        int_convert_spec(input as int, 16, false, self.sat) as u16
    }

    open spec fn spec_accepts(&self, input: u32, output: u16) -> bool {
        output == self.spec_expected(input)
    }

    fn host_verify(&self, input: u32, output: u16) -> (r: Result<(), u16>) {
        let expected = int_convert(input as i128, 16, false, self.sat) as u16;
        if expected == output {
            Ok(())
        } else {
            Err(expected)
        }
    }
}

impl RangeTest for CvtInt<u16, u32> {
    open spec fn spec_max_value(&self) -> u32 {
        0xffffffff
    }

    open spec fn spec_generate(&self, index: u32) -> u32 {
        index
    }

    fn max_value(&self) -> (r: u32) {
        0xffffffff
    }

    fn generate(&self, index: u32) -> (r: u32) {
        index
    }
}

impl TestCommon for CvtInt<i32, u32> {
    type Input = u32;

    type Output = i32;

    open spec fn spec_expected(&self, input: u32) -> i32 {
        int_convert_spec(input as int, 32, true, self.sat) as i32
    }

    open spec fn spec_accepts(&self, input: u32, output: i32) -> bool {
        output == self.spec_expected(input)
    }

    fn host_verify(&self, input: u32, output: i32) -> (r: Result<(), i32>) {
        let expected = int_convert(input as i128, 32, true, self.sat) as i32;
        if expected == output {
            Ok(())
        } else {
            Err(expected)
        }
    }
}

impl RangeTest for CvtInt<i32, u32> {
    open spec fn spec_max_value(&self) -> u32 {
        0xffffffff
    }

    open spec fn spec_generate(&self, index: u32) -> u32 {
        index
    }

    fn max_value(&self) -> (r: u32) {
        0xffffffff
    }

    fn generate(&self, index: u32) -> (r: u32) {
        index
    }
}

impl TestCommon for CvtInt<u32, u32> {
    type Input = u32;

    type Output = u32;

    open spec fn spec_expected(&self, input: u32) -> u32 {
        int_convert_spec(input as int, 32, false, self.sat) as u32
    }

    open spec fn spec_accepts(&self, input: u32, output: u32) -> bool {
        output == self.spec_expected(input)
    }

    fn host_verify(&self, input: u32, output: u32) -> (r: Result<(), u32>) {
        let expected = int_convert(input as i128, 32, false, self.sat) as u32;
        if expected == output {
            Ok(())
        } else {
            Err(expected)
        }
    }
}

impl RangeTest for CvtInt<u32, u32> {
    open spec fn spec_max_value(&self) -> u32 {
        0xffffffff
    }

    open spec fn spec_generate(&self, index: u32) -> u32 {
        index
    }

    fn max_value(&self) -> (r: u32) {
        0xffffffff
    }

    fn generate(&self, index: u32) -> (r: u32) {
        index
    }
}

impl TestCommon for CvtInt<i64, u32> {
    type Input = u32;

    type Output = i64;

    open spec fn spec_expected(&self, input: u32) -> i64 {
        int_convert_spec(input as int, 64, true, self.sat) as i64
    }

    open spec fn spec_accepts(&self, input: u32, output: i64) -> bool {
        output == self.spec_expected(input)
    }

    fn host_verify(&self, input: u32, output: i64) -> (r: Result<(), i64>) {
        let expected = int_convert(input as i128, 64, true, self.sat) as i64;
        if expected == output {
            Ok(())
        } else {
            Err(expected)
        }
    }
}

impl RangeTest for CvtInt<i64, u32> {
    open spec fn spec_max_value(&self) -> u32 {
        0xffffffff
    }

    open spec fn spec_generate(&self, index: u32) -> u32 {
        index
    }

    fn max_value(&self) -> (r: u32) {
        0xffffffff
    }

    fn generate(&self, index: u32) -> (r: u32) {
        index
    }
}

impl TestCommon for CvtInt<u64, u32> {
    type Input = u32;

    type Output = u64;

    open spec fn spec_expected(&self, input: u32) -> u64 {
        int_convert_spec(input as int, 64, false, self.sat) as u64
    }

    open spec fn spec_accepts(&self, input: u32, output: u64) -> bool {
        output == self.spec_expected(input)
    }

    fn host_verify(&self, input: u32, output: u64) -> (r: Result<(), u64>) {
        let expected = int_convert(input as i128, 64, false, self.sat) as u64;
        if expected == output {
            Ok(())
        } else {
            Err(expected)
        }
    }
}

impl RangeTest for CvtInt<u64, u32> {
    open spec fn spec_max_value(&self) -> u32 {
        0xffffffff
    }

    open spec fn spec_generate(&self, index: u32) -> u32 {
        index
    }

    fn max_value(&self) -> (r: u32) {
        0xffffffff
    }

    fn generate(&self, index: u32) -> (r: u32) {
        index
    }
}

/// Integer-to-float conversion from kind `F` to the float kind `T` under rounding `rnd`,
/// optionally saturated to `[0.0, 1.0]`, over every source value.
pub struct CvtToFloat<T, F> {
    pub rnd: Rounding,
    pub sat: bool,
    pub marker: PhantomData<(T, F)>,
}

impl<T, F> CvtToFloat<T, F> {
    pub fn new(rnd: Rounding, sat: bool) -> (r: Self)
        ensures
            r.rnd == rnd && r.sat == sat,
    {
        CvtToFloat { rnd, sat, marker: PhantomData }
    }
}

impl TestCommon for CvtToFloat<F32, i16> {
    type Input = i16;

    type Output = F32;

    open spec fn spec_expected(&self, input: i16) -> F32 {
        let v = int_to_float_spec(input as int, self.rnd, 24, -149, 0x7f80_0000, 0x8000_0000) as u32;
        F32(if self.sat {
            saturate_unit_spec(v)
        } else {
            v
        })
    }

    open spec fn spec_accepts(&self, input: i16, output: F32) -> bool {
        output == self.spec_expected(input)
    }

    fn host_verify(&self, input: i16, output: F32) -> (r: Result<(), F32>) {
        let v = int_to_float(input as i64, self.rnd, false) as u32;
        let expected = F32(if self.sat {
            saturate_unit_f32(v)
        } else {
            v
        });
        if expected == output {
            Ok(())
        } else {
            Err(expected)
        }
    }
}

impl RangeTest for CvtToFloat<F32, i16> {
    open spec fn spec_max_value(&self) -> u32 {
        0xffff
    }

    open spec fn spec_generate(&self, index: u32) -> i16 {
        #[verifier::truncate] ((index % 0x10000) as u16 as i16)
    }

    fn max_value(&self) -> (r: u32) {
        0xffff
    }

    fn generate(&self, index: u32) -> (r: i16) {
        ((index % 0x10000) as u16) as i16
    }
}

impl TestCommon for CvtToFloat<F16, i16> {
    type Input = i16;

    type Output = F16;

    open spec fn spec_expected(&self, input: i16) -> F16 {
        let v = int_to_float_spec(input as int, self.rnd, 11, -24, 0x7c00, 0x8000) as u16;
        F16(if self.sat {
            saturate_unit_f16_spec(v)
        } else {
            v
        })
    }

    open spec fn spec_accepts(&self, input: i16, output: F16) -> bool {
        output == self.spec_expected(input)
    }

    fn host_verify(&self, input: i16, output: F16) -> (r: Result<(), F16>) {
        let v = int_to_float(input as i64, self.rnd, true) as u16;
        let expected = F16(if self.sat {
            saturate_unit_f16(v)
        } else {
            v
        });
        if expected == output {
            Ok(())
        } else {
            Err(expected)
        }
    }
}

impl RangeTest for CvtToFloat<F16, i16> {
    open spec fn spec_max_value(&self) -> u32 {
        0xffff
    }

    open spec fn spec_generate(&self, index: u32) -> i16 {
        #[verifier::truncate] ((index % 0x10000) as u16 as i16)
    }

    fn max_value(&self) -> (r: u32) {
        0xffff
    }

    fn generate(&self, index: u32) -> (r: i16) {
        ((index % 0x10000) as u16) as i16
    }
}

impl TestCommon for CvtToFloat<F32, u16> {
    type Input = u16;

    type Output = F32;

    open spec fn spec_expected(&self, input: u16) -> F32 {
        let v = int_to_float_spec(input as int, self.rnd, 24, -149, 0x7f80_0000, 0x8000_0000) as u32;
        F32(if self.sat {
            saturate_unit_spec(v)
        } else {
            v
        })
    }

    open spec fn spec_accepts(&self, input: u16, output: F32) -> bool {
        output == self.spec_expected(input)
    }

    fn host_verify(&self, input: u16, output: F32) -> (r: Result<(), F32>) {
        let v = int_to_float(input as i64, self.rnd, false) as u32;
        let expected = F32(if self.sat {
            saturate_unit_f32(v)
        } else {
            v
        });
        if expected == output {
            Ok(())
        } else {
            Err(expected)
        }
    }
}

impl RangeTest for CvtToFloat<F32, u16> {
    open spec fn spec_max_value(&self) -> u32 {
        0xffff
    }

    open spec fn spec_generate(&self, index: u32) -> u16 {
        (index % 0x10000) as u16
    }

    fn max_value(&self) -> (r: u32) {
        0xffff
    }

    fn generate(&self, index: u32) -> (r: u16) {
        (index % 0x10000) as u16
    }
}

impl TestCommon for CvtToFloat<F16, u16> {
    type Input = u16;

    type Output = F16;

    open spec fn spec_expected(&self, input: u16) -> F16 {
        let v = int_to_float_spec(input as int, self.rnd, 11, -24, 0x7c00, 0x8000) as u16;
        F16(if self.sat {
            saturate_unit_f16_spec(v)
        } else {
            v
        })
    }

    open spec fn spec_accepts(&self, input: u16, output: F16) -> bool {
        output == self.spec_expected(input)
    }

    fn host_verify(&self, input: u16, output: F16) -> (r: Result<(), F16>) {
        let v = int_to_float(input as i64, self.rnd, true) as u16;
        let expected = F16(if self.sat {
            saturate_unit_f16(v)
        } else {
            v
        });
        if expected == output {
            Ok(())
        } else {
            Err(expected)
        }
    }
}

impl RangeTest for CvtToFloat<F16, u16> {
    open spec fn spec_max_value(&self) -> u32 {
        0xffff
    }

    open spec fn spec_generate(&self, index: u32) -> u16 {
        (index % 0x10000) as u16
    }

    fn max_value(&self) -> (r: u32) {
        0xffff
    }

    fn generate(&self, index: u32) -> (r: u16) {
        (index % 0x10000) as u16
    }
}

impl TestCommon for CvtToFloat<F32, i32> {
    type Input = i32;

    type Output = F32;

    open spec fn spec_expected(&self, input: i32) -> F32 {
        let v = int_to_float_spec(input as int, self.rnd, 24, -149, 0x7f80_0000, 0x8000_0000) as u32;
        F32(if self.sat {
            saturate_unit_spec(v)
        } else {
            v
        })
    }

    open spec fn spec_accepts(&self, input: i32, output: F32) -> bool {
        output == self.spec_expected(input)
    }

    fn host_verify(&self, input: i32, output: F32) -> (r: Result<(), F32>) {
        let v = int_to_float(input as i64, self.rnd, false) as u32;
        let expected = F32(if self.sat {
            saturate_unit_f32(v)
        } else {
            v
        });
        if expected == output {
            Ok(())
        } else {
            Err(expected)
        }
    }
}

impl RangeTest for CvtToFloat<F32, i32> {
    open spec fn spec_max_value(&self) -> u32 {
        0xffffffff
    }

    open spec fn spec_generate(&self, index: u32) -> i32 {
        #[verifier::truncate] (index as i32)
    }

    fn max_value(&self) -> (r: u32) {
        0xffffffff
    }

    fn generate(&self, index: u32) -> (r: i32) {
        index as i32
    }
}

impl TestCommon for CvtToFloat<F16, i32> {
    type Input = i32;

    type Output = F16;

    open spec fn spec_expected(&self, input: i32) -> F16 {
        let v = int_to_float_spec(input as int, self.rnd, 11, -24, 0x7c00, 0x8000) as u16;
        F16(if self.sat {
            saturate_unit_f16_spec(v)
        } else {
            v
        })
    }

    open spec fn spec_accepts(&self, input: i32, output: F16) -> bool {
        output == self.spec_expected(input)
    }

    fn host_verify(&self, input: i32, output: F16) -> (r: Result<(), F16>) {
        let v = int_to_float(input as i64, self.rnd, true) as u16;
        let expected = F16(if self.sat {
            saturate_unit_f16(v)
        } else {
            v
        });
        if expected == output {
            Ok(())
        } else {
            Err(expected)
        }
    }
}

impl RangeTest for CvtToFloat<F16, i32> {
    open spec fn spec_max_value(&self) -> u32 {
        0xffffffff
    }

    open spec fn spec_generate(&self, index: u32) -> i32 {
        #[verifier::truncate] (index as i32)
    }

    fn max_value(&self) -> (r: u32) {
        0xffffffff
    }

    fn generate(&self, index: u32) -> (r: i32) {
        index as i32
    }
}

impl TestCommon for CvtToFloat<F32, u32> {
    type Input = u32;

    type Output = F32;

    open spec fn spec_expected(&self, input: u32) -> F32 {
        let v = int_to_float_spec(input as int, self.rnd, 24, -149, 0x7f80_0000, 0x8000_0000) as u32;
        F32(if self.sat {
            saturate_unit_spec(v)
        } else {
            v
        })
    }

    open spec fn spec_accepts(&self, input: u32, output: F32) -> bool {
        output == self.spec_expected(input)
    }

    fn host_verify(&self, input: u32, output: F32) -> (r: Result<(), F32>) {
        let v = int_to_float(input as i64, self.rnd, false) as u32;
        let expected = F32(if self.sat {
            saturate_unit_f32(v)
        } else {
            v
        });
        if expected == output {
            Ok(())
        } else {
            Err(expected)
        }
    }
}

impl RangeTest for CvtToFloat<F32, u32> {
    open spec fn spec_max_value(&self) -> u32 {
        0xffffffff
    }

    open spec fn spec_generate(&self, index: u32) -> u32 {
        index
    }

    fn max_value(&self) -> (r: u32) {
        0xffffffff
    }

    fn generate(&self, index: u32) -> (r: u32) {
        index
    }
}

impl TestCommon for CvtToFloat<F16, u32> {
    type Input = u32;

    type Output = F16;

    open spec fn spec_expected(&self, input: u32) -> F16 {
        let v = int_to_float_spec(input as int, self.rnd, 11, -24, 0x7c00, 0x8000) as u16;
        F16(if self.sat {
            saturate_unit_f16_spec(v)
        } else {
            v
        })
    }

    open spec fn spec_accepts(&self, input: u32, output: F16) -> bool {
        output == self.spec_expected(input)
    }

    fn host_verify(&self, input: u32, output: F16) -> (r: Result<(), F16>) {
        let v = int_to_float(input as i64, self.rnd, true) as u16;
        let expected = F16(if self.sat {
            saturate_unit_f16(v)
        } else {
            v
        });
        if expected == output {
            Ok(())
        } else {
            Err(expected)
        }
    }
}

impl RangeTest for CvtToFloat<F16, u32> {
    open spec fn spec_max_value(&self) -> u32 {
        0xffffffff
    }

    open spec fn spec_generate(&self, index: u32) -> u32 {
        index
    }

    fn max_value(&self) -> (r: u32) {
        0xffffffff
    }

    fn generate(&self, index: u32) -> (r: u32) {
        index
    }
}

/// Whether a double-precision pattern is NaN.
pub open spec fn f64_is_nan(x: u64) -> bool {
    x as int % 0x8000_0000_0000_0000 > 0x7ff0_0000_0000_0000
}

pub fn is_nan_f64(x: u64) -> (r: bool)
    ensures
        r == f64_is_nan(x),
{
    x % 0x8000_0000_0000_0000 > 0x7ff0_0000_0000_0000
}

impl TestCommon for Cvt<F64, F32> {
    type Input = F32;

    type Output = F64;

    open spec fn spec_expected(&self, input: F32) -> F64 {
        F64(cvt_f64_f32_spec(input.0, self.ftz, self.sat))
    }

    open spec fn spec_accepts(&self, input: F32, output: F64) -> bool {
        let e = self.spec_expected(input).0;
        (f64_is_nan(e) && f64_is_nan(output.0)) || e == output.0
    }

    fn host_verify(&self, input: F32, output: F64) -> (r: Result<(), F64>) {
        let e = cvt_f64_f32(input.0, self.ftz, self.sat);
        if (is_nan_f64(e) && is_nan_f64(output.0)) || e == output.0 {
            Ok(())
        } else {
            Err(F64(e))
        }
    }
}

impl RangeTest for Cvt<F64, F32> {
    open spec fn spec_max_value(&self) -> u32 {
        0xffff_ffff
    }

    open spec fn spec_generate(&self, index: u32) -> F32 {
        F32(index)
    }

    fn max_value(&self) -> (r: u32) {
        0xffff_ffff
    }

    fn generate(&self, index: u32) -> (r: F32) {
        F32(index)
    }
}

impl TestCommon for Cvt<F64, F16> {
    type Input = F16;

    type Output = F64;

    open spec fn spec_expected(&self, input: F16) -> F64 {
        F64(cvt_f64_f16_spec(input.0, self.sat))
    }

    open spec fn spec_accepts(&self, input: F16, output: F64) -> bool {
        let e = self.spec_expected(input).0;
        (f64_is_nan(e) && f64_is_nan(output.0)) || e == output.0
    }

    fn host_verify(&self, input: F16, output: F64) -> (r: Result<(), F64>) {
        let e = cvt_f64_f16(input.0, self.sat);
        if (is_nan_f64(e) && is_nan_f64(output.0)) || e == output.0 {
            Ok(())
        } else {
            Err(F64(e))
        }
    }
}

impl RangeTest for Cvt<F64, F16> {
    open spec fn spec_max_value(&self) -> u32 {
        0xffff
    }

    open spec fn spec_generate(&self, index: u32) -> F16 {
        F16(index as u16)
    }

    fn max_value(&self) -> (r: u32) {
        0xffff
    }

    fn generate(&self, index: u32) -> (r: F16) {
        F16(index as u16)
    }
}

impl TestCommon for Cvt<F64, i16> {
    type Input = i16;

    type Output = F64;

    open spec fn spec_expected(&self, input: i16) -> F64 {
        F64(cvt_f64_int_spec(input as int, self.sat))
    }

    open spec fn spec_accepts(&self, input: i16, output: F64) -> bool {
        let e = self.spec_expected(input).0;
        (f64_is_nan(e) && f64_is_nan(output.0)) || e == output.0
    }

    fn host_verify(&self, input: i16, output: F64) -> (r: Result<(), F64>) {
        let e = cvt_f64_int(input as i64, self.sat);
        if (is_nan_f64(e) && is_nan_f64(output.0)) || e == output.0 {
            Ok(())
        } else {
            Err(F64(e))
        }
    }
}

impl RangeTest for Cvt<F64, i16> {
    open spec fn spec_max_value(&self) -> u32 {
        0xffff
    }

    open spec fn spec_generate(&self, index: u32) -> i16 {
        #[verifier::truncate] ((index % 0x10000) as u16 as i16)
    }

    fn max_value(&self) -> (r: u32) {
        0xffff
    }

    fn generate(&self, index: u32) -> (r: i16) {
        ((index % 0x10000) as u16) as i16
    }
}

impl TestCommon for Cvt<F64, u16> {
    type Input = u16;

    type Output = F64;

    open spec fn spec_expected(&self, input: u16) -> F64 {
        F64(cvt_f64_int_spec(input as int, self.sat))
    }

    open spec fn spec_accepts(&self, input: u16, output: F64) -> bool {
        let e = self.spec_expected(input).0;
        (f64_is_nan(e) && f64_is_nan(output.0)) || e == output.0
    }

    fn host_verify(&self, input: u16, output: F64) -> (r: Result<(), F64>) {
        let e = cvt_f64_int(input as i64, self.sat);
        if (is_nan_f64(e) && is_nan_f64(output.0)) || e == output.0 {
            Ok(())
        } else {
            Err(F64(e))
        }
    }
}

impl RangeTest for Cvt<F64, u16> {
    open spec fn spec_max_value(&self) -> u32 {
        0xffff
    }

    open spec fn spec_generate(&self, index: u32) -> u16 {
        (index % 0x10000) as u16
    }

    fn max_value(&self) -> (r: u32) {
        0xffff
    }

    fn generate(&self, index: u32) -> (r: u16) {
        (index % 0x10000) as u16
    }
}

impl TestCommon for Cvt<F64, i32> {
    type Input = i32;

    type Output = F64;

    open spec fn spec_expected(&self, input: i32) -> F64 {
        F64(cvt_f64_int_spec(input as int, self.sat))
    }

    open spec fn spec_accepts(&self, input: i32, output: F64) -> bool {
        let e = self.spec_expected(input).0;
        (f64_is_nan(e) && f64_is_nan(output.0)) || e == output.0
    }

    fn host_verify(&self, input: i32, output: F64) -> (r: Result<(), F64>) {
        let e = cvt_f64_int(input as i64, self.sat);
        if (is_nan_f64(e) && is_nan_f64(output.0)) || e == output.0 {
            Ok(())
        } else {
            Err(F64(e))
        }
    }
}

impl RangeTest for Cvt<F64, i32> {
    open spec fn spec_max_value(&self) -> u32 {
        0xffffffff
    }

    open spec fn spec_generate(&self, index: u32) -> i32 {
        #[verifier::truncate] (index as i32)
    }

    fn max_value(&self) -> (r: u32) {
        0xffffffff
    }

    fn generate(&self, index: u32) -> (r: i32) {
        index as i32
    }
}

impl TestCommon for Cvt<F64, u32> {
    type Input = u32;

    type Output = F64;

    open spec fn spec_expected(&self, input: u32) -> F64 {
        F64(cvt_f64_int_spec(input as int, self.sat))
    }

    open spec fn spec_accepts(&self, input: u32, output: F64) -> bool {
        let e = self.spec_expected(input).0;
        (f64_is_nan(e) && f64_is_nan(output.0)) || e == output.0
    }

    fn host_verify(&self, input: u32, output: F64) -> (r: Result<(), F64>) {
        let e = cvt_f64_int(input as i64, self.sat);
        if (is_nan_f64(e) && is_nan_f64(output.0)) || e == output.0 {
            Ok(())
        } else {
            Err(F64(e))
        }
    }
}

impl RangeTest for Cvt<F64, u32> {
    open spec fn spec_max_value(&self) -> u32 {
        0xffffffff
    }

    open spec fn spec_generate(&self, index: u32) -> u32 {
        index
    }

    fn max_value(&self) -> (r: u32) {
        0xffffffff
    }

    fn generate(&self, index: u32) -> (r: u32) {
        index
    }
}

} // verus!
