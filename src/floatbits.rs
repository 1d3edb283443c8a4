//! Operations on float bit patterns: absolute value, negation, classification, `set`
//! results, tolerance checks, saturation and half-precision minimum and maximum.

use vstd::prelude::*;
use crate::common::{
    flush_f16, flush_f32, flush_to_zero_f16, flush_to_zero_f32, f16_is_nan, f16_mag, f16_sign,
    f32_is_nan, f32_key, f32_mag, is_nan_f16, is_nan_f32, key_f32, Comparison,
};

verus! {

/// Absolute value of a single-precision pattern: the sign is cleared, then a subnormal
/// result is flushed when `ftz` is set.
pub fn abs_f32(x: u32, ftz: bool) -> (r: u32)
    ensures
        r == flush_f32((x % 0x8000_0000) as u32, ftz),
{
    let mut v = x % 0x8000_0000;
    flush_to_zero_f32(&mut v, ftz);
    v
}

/// Negation of a single-precision pattern: the sign is flipped, then a subnormal result is
/// flushed when `ftz` is set.
pub fn neg_f32(x: u32, ftz: bool) -> (r: u32)
    ensures
        r == flush_f32(((x as int + 0x8000_0000) % 0x1_0000_0000) as u32, ftz),
{
    let mut v = if x >= 0x8000_0000 {
        x - 0x8000_0000
    } else {
        x + 0x8000_0000
    };
    flush_to_zero_f32(&mut v, ftz);
    v
}

/// Whether a device result matches the expected pattern: the same bits, or both NaN.
pub open spec fn same_f32(expected: u32, output: u32) -> bool {
    (f32_is_nan(expected) && f32_is_nan(output)) || expected == output
}

/// Floating-point classes that the `testp` instruction tests for.
#[derive(Clone, Copy, PartialEq, Eq, Debug, Structural)]
pub enum TestpMode {
    Finite,
    Infinite,
    Number,
    NotANumber,
    Normal,
    Subnormal,
}

impl TestpMode {
    pub open spec fn spec_str(self) -> Seq<char> {
        match self {
            TestpMode::Finite => "finite"@,
            TestpMode::Infinite => "infinite"@,
            TestpMode::Number => "number"@,
            TestpMode::NotANumber => "notanumber"@,
            TestpMode::Normal => "normal"@,
            TestpMode::Subnormal => "subnormal"@,
        }
    }

    /// Whether a single-precision pattern belongs to the class; zero counts as normal.
    pub open spec fn holds(self, x: u32) -> bool {
        let m = f32_mag(x);
        match self {
            TestpMode::Finite => m < 0x7f80_0000,
            TestpMode::Infinite => m == 0x7f80_0000,
            TestpMode::Number => m <= 0x7f80_0000,
            TestpMode::NotANumber => m > 0x7f80_0000,
            TestpMode::Normal => m == 0 || 0x0080_0000 <= m < 0x7f80_0000,
            TestpMode::Subnormal => 0 < m < 0x0080_0000,
        }
    }

    pub fn as_str(&self) -> (r: &'static str)
        ensures
            r@ == self.spec_str(),
    {
        match self {
            TestpMode::Finite => "finite",
            TestpMode::Infinite => "infinite",
            TestpMode::Number => "number",
            TestpMode::NotANumber => "notanumber",
            TestpMode::Normal => "normal",
            TestpMode::Subnormal => "subnormal",
        }
    }

    /// The predicate's result as the device writes it: 1 or 0.
    pub fn test(&self, x: u32) -> (r: u32)
        ensures
            r == if self.holds(x) {
                1u32
            } else {
                0u32
            },
    {
        let m = x % 0x8000_0000;
        let b = match self {
            TestpMode::Finite => m < 0x7f80_0000,
            TestpMode::Infinite => m == 0x7f80_0000,
            TestpMode::Number => m <= 0x7f80_0000,
            TestpMode::NotANumber => m > 0x7f80_0000,
            TestpMode::Normal => m == 0 || (0x0080_0000 <= m && m < 0x7f80_0000),
            TestpMode::Subnormal => 0 < m && m < 0x0080_0000,
        };
        if b {
            1
        } else {
            0
        }
    }
}

/// Boolean operators that combine a comparison with a predicate operand.
#[derive(Clone, Copy, PartialEq, Eq, Debug, Structural)]
pub enum BoolOp {
    And,
    Or,
    Xor,
}

impl BoolOp {
    pub open spec fn spec_str(self) -> Seq<char> {
        match self {
            BoolOp::And => "and"@,
            BoolOp::Or => "or"@,
            BoolOp::Xor => "xor"@,
        }
    }

    pub open spec fn apply(self, x: bool, y: bool) -> bool {
        match self {
            BoolOp::And => x && y,
            BoolOp::Or => x || y,
            BoolOp::Xor => x != y,
        }
    }

    pub fn as_str(self) -> (r: &'static str)
        ensures
            r@ == self.spec_str(),
    {
        match self {
            BoolOp::And => "and",
            BoolOp::Or => "or",
            BoolOp::Xor => "xor",
        }
    }
}

/// A comparison result, combined with the predicate operand when there is one.
pub open spec fn combine_spec(cmp: bool, bool_input: Option<(BoolOp, bool)>) -> bool {
    match bool_input {
        Some((op, p)) => op.apply(cmp, p),
        None => cmp,
    }
}

pub fn combine(cmp: bool, bool_input: Option<(BoolOp, bool)>) -> (r: bool)
    ensures
        r == combine_spec(cmp, bool_input),
{
    match bool_input {
        Some((bool_op, predicate)) => match bool_op {
            BoolOp::And => cmp && predicate,
            BoolOp::Or => cmp || predicate,
            BoolOp::Xor => cmp != predicate,
        },
        None => cmp,
    }
}

/// The pattern of single-precision 1.0.
pub const F32_ONE: u32 = 0x3f80_0000;

/// The integer destination of `set`: all ones for true, zero for false.
pub fn set_int_result(b: bool) -> (r: u32)
    ensures
        r == if b {
            0xffff_ffffu32
        } else {
            0u32
        },
{
    if b {
        0xffff_ffff
    } else {
        0
    }
}

/// The float destination of `set`: 1.0 for true, 0.0 for false.
pub fn set_float_result(b: bool) -> (r: u32)
    ensures
        r == if b {
            F32_ONE
        } else {
            0u32
        },
{
    if b {
        F32_ONE
    } else {
        0
    }
}

/// The expected result of `set` with a float destination on single-precision operands.
pub fn set_f32(cmp: Comparison, a: u32, b: u32, ftz: bool, bool_op: BoolOp, predicate: bool) -> (r: u32)
    ensures
        r == if bool_op.apply(cmp.spec_cmp_float(a, b, ftz), predicate) {
            F32_ONE
        } else {
            0u32
        },
{
    let c = cmp.cmp_float(a, b, ftz);
    set_float_result(combine(c, Some((bool_op, predicate))))
}

/// An 8-bit float with four exponent bits is NaN when all bits but the sign are set.
pub open spec fn e4m3_is_nan(bits: u8) -> bool {
    bits % 0x80 == 0x7f
}

/// An 8-bit float with five exponent bits is NaN when its exponent is all ones and its
/// mantissa is not zero.
pub open spec fn e5m2_is_nan(bits: u8) -> bool {
    bits % 0x80 > 0x7c
}

pub fn e4m3_is_nan_correct(bits: u8) -> (r: bool)
    ensures
        r == e4m3_is_nan(bits),
{
    bits % 0x80 == 0x7f
}

pub fn e5m2_is_nan_correct(bits: u8) -> (r: bool)
    ensures
        r == e5m2_is_nan(bits),
{
    let m = bits % 0x80;
    m == 0x7d || m == 0x7e || m == 0x7f
}

/// How many representable steps apart two patterns are, counted on their bits.
pub open spec fn ulp_distance(x: u32, y: u32) -> int {
    if x >= y {
        x - y
    } else {
        y - x
    }
}

/// Accepts `output` when it is within `expected_ulp` steps of `exact`, or when both are NaN;
/// otherwise returns `exact`.
pub fn is_float_equal(exact: u32, output: u32, expected_ulp: u32) -> (r: Result<(), u32>)
    ensures
        r is Ok <==> ((f32_is_nan(exact) && f32_is_nan(output)) || ulp_distance(exact, output)
            <= expected_ulp),
        !(r is Ok) ==> r == Err::<(), u32>(exact),
{
    if is_nan_f32(exact) && is_nan_f32(output) {
        return Ok(());
    }
    let ulp = if exact >= output {
        exact - output
    } else {
        output - exact
    };
    if ulp <= expected_ulp {
        Ok(())
    } else {
        Err(exact)
    }
}

/// The pattern of the quiet NaN that the host reports.
pub const F32_NAN: u32 = 0x7fc0_0000;

/// Whether an approximate quotient `output` of `a / b` is acceptable, given the exactly
/// rounded quotient `exact`. A divisor below `2^-126` in magnitude accepts anything; up to
/// `2^126` two steps of error are allowed; beyond, the quotient must be NaN for an infinite
/// dividend and zero otherwise.
pub open spec fn approx_div_accepts(a: u32, b: u32, exact: u32, output: u32) -> bool {
    if (f32_is_nan(exact) && f32_is_nan(output)) || (exact == 0x7f80_0000 && output == 0x7f80_0000)
        || (exact == 0xff80_0000 && output == 0xff80_0000) {
        true
    } else if f32_mag(b) < 0x0080_0000 {
        true
    } else if f32_mag(b) <= 0x7e80_0000 {
        f32_is_nan(exact) && f32_is_nan(output) || ulp_distance(exact, output) <= 2
    } else if f32_mag(a) == 0x7f80_0000 {
        f32_is_nan(output)
    } else {
        f32_mag(output) == 0
    }
}

/// The value reported when an approximate quotient is refused.
pub open spec fn approx_div_expected(a: u32, b: u32, exact: u32) -> u32 {
    if f32_mag(b) <= 0x7e80_0000 {
        exact
    } else if f32_mag(a) == 0x7f80_0000 {
        F32_NAN
    } else {
        0
    }
}

pub fn is_approx_equal(a: u32, b: u32, exact: u32, output: u32) -> (r: Result<(), u32>)
    ensures
        r is Ok <==> approx_div_accepts(a, b, exact, output),
        !(r is Ok) ==> r == Err::<(), u32>(approx_div_expected(a, b, exact)),
{
    if is_nan_f32(exact) && is_nan_f32(output) {
        return Ok(());
    }
    if exact == 0x7f80_0000 && output == 0x7f80_0000 {
        return Ok(());
    }
    if exact == 0xff80_0000 && output == 0xff80_0000 {
        return Ok(());
    }
    let b_mag = b % 0x8000_0000;
    if b_mag < 0x0080_0000 {
        Ok(())
    } else if b_mag <= 0x7e80_0000 {
        is_float_equal(exact, output, 2)
    } else if a % 0x8000_0000 == 0x7f80_0000 {
        if is_nan_f32(output) {
            Ok(())
        } else {
            Err(F32_NAN)
        }
    } else {
        if output % 0x8000_0000 == 0 {
            Ok(())
        } else {
            Err(0)
        }
    }
}

/// Saturation of a conversion result to `[0.0, 1.0]`: NaN and values up to zero become +0.0,
/// values above one become 1.0.
pub open spec fn saturate_unit_spec(x: u32) -> u32 {
    if f32_is_nan(x) || f32_key(x) <= 0 {
        0
    } else if f32_key(x) > F32_ONE {
        F32_ONE
    } else {
        x
    }
}

pub fn saturate_unit_f32(x: u32) -> (r: u32)
    ensures
        r == saturate_unit_spec(x),
{
    let k = key_f32(x);
    if is_nan_f32(x) || k <= 0 {
        0
    } else if k > F32_ONE as i64 {
        F32_ONE
    } else {
        x
    }
}

/// The pattern of the quiet half-precision NaN that the host reports.
pub const F16_NAN: u16 = 0x7e00;

/// A key that orders non-NaN half-precision patterns as their values; both zeros map to 0.
pub open spec fn f16_key(x: u16) -> int {
    if f16_sign(x) {
        -f16_mag(x)
    } else {
        f16_mag(x)
    }
}

/// Half-precision minimum (or maximum, with `max`) after flushing subnormal operands when
/// `ftz` is set. NaN operands are ignored unless both are NaN, or unless `nan` is set, in
/// which case any NaN operand gives NaN. Of two equal values (the two zeros), the minimum
/// is the negative one and the maximum the positive one.
pub open spec fn minmax_f16_spec(a: u16, b: u16, max: bool, nan: bool, ftz: bool) -> u16 {
    let x = flush_f16(a, ftz);
    let y = flush_f16(b, ftz);
    if f16_is_nan(x) && f16_is_nan(y) {
        F16_NAN
    } else if nan && (f16_is_nan(x) || f16_is_nan(y)) {
        F16_NAN
    } else if f16_is_nan(x) {
        y
    } else if f16_is_nan(y) {
        x
    } else if f16_key(x) < f16_key(y) {
        if max {
            y
        } else {
            x
        }
    } else if f16_key(y) < f16_key(x) {
        if max {
            x
        } else {
            y
        }
    } else if f16_sign(x) == max {
        y
    } else {
        x
    }
}

pub fn minmax_f16(a: u16, b: u16, max: bool, nan: bool, ftz: bool) -> (r: u16)
    ensures
        r == minmax_f16_spec(a, b, max, nan, ftz),
{
    let mut x = a;
    let mut y = b;
    flush_to_zero_f16(&mut x, ftz);
    flush_to_zero_f16(&mut y, ftz);
    let x_nan = is_nan_f16(x);
    let y_nan = is_nan_f16(y);
    if x_nan && y_nan {
        return F16_NAN;
    }
    if nan && (x_nan || y_nan) {
        return F16_NAN;
    }
    if x_nan {
        return y;
    }
    if y_nan {
        return x;
    }
    let kx: i32 = if x >= 0x8000 {
        -((x % 0x8000) as i32)
    } else {
        x as i32
    };
    let ky: i32 = if y >= 0x8000 {
        -((y % 0x8000) as i32)
    } else {
        y as i32
    };
    if kx < ky {
        if max {
            y
        } else {
            x
        }
    } else if ky < kx {
        if max {
            x
        } else {
            y
        }
    } else if (x >= 0x8000) == max {
        y
    } else {
        x
    }
}

/// The number of special operand pairs: 16, or 23 with the `wide` table, which adds the
/// smallest subnormals and the operand 10.0.
pub open spec fn special_len(wide: bool) -> nat {
    if wide {
        23
    } else {
        16
    }
}

/// Special operand pair number `pick`, as single-precision patterns: zeros against
/// infinities, NaN against zeros and one, the largest subnormals of both signs against each
/// other, random values (`draws`) and 1.0 and 2.0 (10.0 with `wide`), and with `wide` the
/// same for the smallest subnormals.
pub open spec fn special_pair(pick: nat, draws: Seq<u32>, wide: bool) -> (u32, u32) {
    if pick == 0 {
        (0, 0x7f80_0000)
    } else if pick == 1 {
        (0x7f80_0000, 0)
    } else if pick == 2 {
        (0x7f80_0000, 0x8000_0000)
    } else if pick == 3 {
        (0xff80_0000, 0)
    } else if pick == 4 {
        (0xff80_0000, 0x8000_0000)
    } else if pick == 5 {
        (F32_NAN, 0)
    } else if pick == 6 {
        (F32_NAN, 0x8000_0000)
    } else if pick == 7 {
        (0, F32_NAN)
    } else if pick == 8 {
        (F32_NAN, F32_ONE)
    } else if pick == 9 {
        (0x807f_ffff, 0x007f_ffff)
    } else if pick == 10 {
        (0x807f_ffff, draws[0])
    } else if pick == 11 {
        (0x007f_ffff, draws[1])
    } else if pick == 12 {
        (draws[2], 0x007f_ffff)
    } else if pick == 13 {
        (draws[3], 0x807f_ffff)
    } else if pick == 14 {
        (0x007f_ffff, F32_ONE)
    } else if pick == 15 {
        (0x007f_ffff, if wide { 0x4120_0000 } else { 0x4000_0000 })
    } else if pick == 16 {
        (0x8000_0001, 0x0000_0001)
    } else if pick == 17 {
        (0x8000_0001, draws[4])
    } else if pick == 18 {
        (0x0000_0001, draws[5])
    } else if pick == 19 {
        (draws[6], 0x0000_0001)
    } else if pick == 20 {
        (draws[7], 0x8000_0001)
    } else if pick == 21 {
        (0x0000_0001, F32_ONE)
    } else {
        (0x0000_0001, 0x4120_0000)
    }
}

/// The operands of a float arithmetic test: the special pair `pick` when `special`, two
/// fresh random patterns otherwise. `draws` are the random values the table holds.
pub fn operand_pair(draws: [u32; 8], special: bool, pick: usize, fresh: (u32, u32), wide: bool) -> (r: (u32, u32))
    requires
        special ==> pick < special_len(wide),
    ensures
        special ==> r == special_pair(pick as nat, draws@, wide),
        !special ==> r == fresh,
{
    if !special {
        return fresh;
    }
    if pick == 0 {
        (0, 0x7f80_0000)
    } else if pick == 1 {
        (0x7f80_0000, 0)
    } else if pick == 2 {
        (0x7f80_0000, 0x8000_0000)
    } else if pick == 3 {
        (0xff80_0000, 0)
    } else if pick == 4 {
        (0xff80_0000, 0x8000_0000)
    } else if pick == 5 {
        (F32_NAN, 0)
    } else if pick == 6 {
        (F32_NAN, 0x8000_0000)
    } else if pick == 7 {
        (0, F32_NAN)
    } else if pick == 8 {
        (F32_NAN, F32_ONE)
    } else if pick == 9 {
        (0x807f_ffff, 0x007f_ffff)
    } else if pick == 10 {
        (0x807f_ffff, draws[0])
    } else if pick == 11 {
        (0x007f_ffff, draws[1])
    } else if pick == 12 {
        (draws[2], 0x007f_ffff)
    } else if pick == 13 {
        (draws[3], 0x807f_ffff)
    } else if pick == 14 {
        (0x007f_ffff, F32_ONE)
    } else if pick == 15 {
        (0x007f_ffff, if wide { 0x4120_0000 } else { 0x4000_0000 })
    } else if pick == 16 {
        (0x8000_0001, 0x0000_0001)
    } else if pick == 17 {
        (0x8000_0001, draws[4])
    } else if pick == 18 {
        (0x0000_0001, draws[5])
    } else if pick == 19 {
        (draws[6], 0x0000_0001)
    } else if pick == 20 {
        (draws[7], 0x8000_0001)
    } else if pick == 21 {
        (0x0000_0001, F32_ONE)
    } else {
        (0x0000_0001, 0x4120_0000)
    }
}

} // verus!
