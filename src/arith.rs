//! Integer arithmetic: wrapping and saturating add and subtract, multiplication halves,
//! multiply-add, 24-bit multiplication, sums of absolute differences, dot products and
//! carry chains.

use vstd::prelude::*;
use vstd::arithmetic::div_mod::{
    lemma_fundamental_div_mod, lemma_mod_multiples_vanish, lemma_fundamental_div_mod_converse,
};
use vstd::arithmetic::div_mod::lemma_hoist_over_denominator;
use crate::bytes::{pow256, lemma_pow256_eight};
use crate::scalar::WideningMul;

verus! {

/// `x` limited to the range `lo ..= hi`.
pub open spec fn clamp(x: int, lo: int, hi: int) -> int {
    if x < lo {
        lo
    } else if x > hi {
        hi
    } else {
        x
    }
}

/// `x` reduced into `0 .. m`: what an unsigned register of modulus `m` keeps.
pub open spec fn wrap_unsigned(x: int, m: int) -> int {
    x % m
}

/// `x` reduced into `-m/2 .. m/2`: what a two's complement register of modulus `m` keeps.
pub open spec fn wrap_signed(x: int, m: int) -> int {
    if x % m >= m / 2 {
        x % m - m
    } else {
        x % m
    }
}

/// Selects the half of a product that a multiplication returns.
#[derive(Clone, Copy, PartialEq, Eq, Debug, Structural)]
pub enum Mode {
    Low,
    High,
}

impl Mode {
    pub open spec fn spec_str(self) -> Seq<char> {
        match self {
            Mode::Low => "lo"@,
            Mode::High => "hi"@,
        }
    }

    /// The modifier in device program text.
    pub fn to_ptx(&self) -> (r: &'static str)
        ensures
            r@ == self.spec_str(),
    {
        match self {
            Mode::Low => "lo",
            Mode::High => "hi",
        }
    }
}

pub fn wrap_s16(s: i64) -> (r: i16)
    requires
        -0x100_0000_0000 <= s <= 0x100_0000_0000,
    ensures
        r as int == wrap_signed(s as int, 0x1_0000),
{
    let t = (s + 0x100_0000_0000) as u64;
    proof {
        lemma_mod_multiples_vanish(0x100_0000, s as int, 0x1_0000);
    }
    let m = t % 0x1_0000;
    if m >= 0x8000 {
        (m as i64 - 0x1_0000) as i16
    } else {
        m as i16
    }
}

pub fn wrap_s32(s: i128) -> (r: i32)
    requires
        -0x1000_0000_0000_0000 <= s <= 0x1000_0000_0000_0000,
    ensures
        r as int == wrap_signed(s as int, 0x1_0000_0000),
{
    let t = (s + 0x1000_0000_0000_0000) as u128;
    proof {
        lemma_mod_multiples_vanish(0x1000_0000, s as int, 0x1_0000_0000);
    }
    let m = t % 0x1_0000_0000;
    if m >= 0x8000_0000 {
        (m as i128 - 0x1_0000_0000) as i32
    } else {
        m as i32
    }
}

pub fn clamp_s32(s: i64) -> (r: i32)
    ensures
        r as int == clamp(s as int, i32::MIN as int, i32::MAX as int),
{
    if s > i32::MAX as i64 {
        i32::MAX
    } else if s < i32::MIN as i64 {
        i32::MIN
    } else {
        s as i32
    }
}

/// Wrapping addition of 16-bit unsigned operands.
pub fn add_u16(a: u16, b: u16) -> (r: u16)
    ensures
        r as int == wrap_unsigned(a + b, 0x1_0000),
{
    ((a as u32 + b as u32) % 0x1_0000) as u16
}

/// Wrapping addition of 16-bit signed operands.
pub fn add_s16(a: i16, b: i16) -> (r: i16)
    ensures
        r as int == wrap_signed(a + b, 0x1_0000),
{
    wrap_s16(a as i64 + b as i64)
}

/// Addition of 32-bit signed operands, clamped to the type's range when `saturate` is set and
/// wrapping otherwise.
pub fn add_with_saturation_s32(a: i32, b: i32, saturate: bool) -> (r: i32)
    ensures
        r as int == if saturate {
            clamp(a + b, i32::MIN as int, i32::MAX as int)
        } else {
            wrap_signed(a + b, 0x1_0000_0000)
        },
{
    if saturate {
        clamp_s32(a as i64 + b as i64)
    } else {
        wrap_s32(a as i128 + b as i128)
    }
}

/// Wrapping subtraction of 16-bit unsigned operands.
pub fn sub_u16(a: u16, b: u16) -> (r: u16)
    ensures
        r as int == wrap_unsigned(a - b, 0x1_0000),
{
    ((a as u32 + 0x1_0000 - b as u32) % 0x1_0000) as u16
}

/// Wrapping subtraction of 16-bit signed operands.
pub fn sub_s16(a: i16, b: i16) -> (r: i16)
    ensures
        r as int == wrap_signed(a - b, 0x1_0000),
{
    wrap_s16(a as i64 - b as i64)
}

/// Subtraction of 32-bit signed operands, clamped when `saturate` is set, wrapping otherwise.
pub fn sub_with_saturation_s32(a: i32, b: i32, saturate: bool) -> (r: i32)
    ensures
        r as int == if saturate {
            clamp(a - b, i32::MIN as int, i32::MAX as int)
        } else {
            wrap_signed(a - b, 0x1_0000_0000)
        },
{
    if saturate {
        clamp_s32(a as i64 - b as i64)
    } else {
        wrap_s32(a as i128 - b as i128)
    }
}

/// A saturated sum or difference stays in the type's range, and where the exact result is
/// already in range, saturating and wrapping both give it.
pub proof fn lemma_saturation_bounds(x: int)
    requires
        -0x1_0000_0000 <= x <= 0x1_0000_0000,
    ensures
        i32::MIN <= clamp(x, i32::MIN as int, i32::MAX as int) <= i32::MAX,
        i32::MIN <= x <= i32::MAX ==> clamp(x, i32::MIN as int, i32::MAX as int) == x
            && wrap_signed(x, 0x1_0000_0000) == x,
{
    if i32::MIN <= x <= i32::MAX {
        if x >= 0 {
            lemma_fundamental_div_mod_converse(x, 0x1_0000_0000, 0, x);
        } else {
            lemma_fundamental_div_mod_converse(x, 0x1_0000_0000, -1, x + 0x1_0000_0000);
        }
    }
}

/// The saturation law for the two 32-bit operations.
pub proof fn lemma_add_sub_saturation(a: i32, b: i32)
    ensures
        i32::MIN <= clamp(a + b, i32::MIN as int, i32::MAX as int) <= i32::MAX,
        i32::MIN <= clamp(a - b, i32::MIN as int, i32::MAX as int) <= i32::MAX,
        i32::MIN <= a + b <= i32::MAX ==> clamp(a + b, i32::MIN as int, i32::MAX as int)
            == wrap_signed(a + b, 0x1_0000_0000),
        i32::MIN <= a - b <= i32::MAX ==> clamp(a - b, i32::MIN as int, i32::MAX as int)
            == wrap_signed(a - b, 0x1_0000_0000),
{
    lemma_saturation_bounds(a + b);
    lemma_saturation_bounds(a - b);
}

/// Low or high half of the product of two 16-bit unsigned operands.
pub fn mul_u16(a: u16, b: u16, mode: Mode) -> (r: u16)
    ensures
        r as int == match mode {
            Mode::Low => (a * b) % 0x1_0000,
            Mode::High => (a * b) / 0x1_0000,
        },
{
    let (lo, hi) = a.widening_mul(b);
    proof {
        lemma_fundamental_div_mod_converse(a * b, 0x1_0000, hi as int, lo as int);
    }
    match mode {
        Mode::Low => lo,
        Mode::High => hi,
    }
}

/// Low or high half of the product of two 16-bit signed operands; the high half is the
/// product divided by `2^16`, rounded down.
pub fn mul_s16(a: i16, b: i16, mode: Mode) -> (r: i16)
    ensures
        r as int == match mode {
            Mode::Low => wrap_signed(a * b, 0x1_0000),
            Mode::High => (a * b) / 0x1_0000,
        },
{
    let (lo, hi) = a.widening_mul(b);
    proof {
        let p = (lo as u16) as int;
        lemma_fundamental_div_mod_converse(a * b, 0x1_0000, hi as int, p);
        assert(lo < 0 ==> (lo as u16) as i32 == lo as i32 + 0x1_0000) by (bit_vector);
        assert(lo >= 0 ==> (lo as u16) as i32 == lo as i32) by (bit_vector);
    }
    match mode {
        Mode::Low => lo,
        Mode::High => hi,
    }
}

/// The full product of two 16-bit unsigned operands.
pub fn mul_wide_u16(a: u16, b: u16) -> (r: u32)
    ensures
        r as int == a * b,
{
    assert(a * b <= 0xffff * 0xffff) by (nonlinear_arith)
        requires
            a <= 0xffff,
            b <= 0xffff,
    ;
    a as u32 * b as u32
}

/// The full product of two 16-bit signed operands.
pub fn mul_wide_s16(a: i16, b: i16) -> (r: i32)
    ensures
        r as int == a * b,
{
    assert(-0x4000_0000 <= a * b <= 0x4000_0000) by (nonlinear_arith)
        requires
            -0x8000 <= a <= 0x7fff,
            -0x8000 <= b <= 0x7fff,
    ;
    a as i32 * b as i32
}

/// Multiply-add on 16-bit unsigned operands: the selected half of `a * b`, plus `c`, wrapping.
pub fn mad_u16(a: u16, b: u16, c: u16, mode: Mode) -> (r: u16)
    ensures
        r as int == wrap_unsigned(
            match mode {
                Mode::Low => (a * b) % 0x1_0000,
                Mode::High => (a * b) / 0x1_0000,
            } + c,
            0x1_0000,
        ),
{
    add_u16(mul_u16(a, b, mode), c)
}

/// Multiply-add on 16-bit signed operands: the selected half of `a * b`, plus `c`, wrapping.
pub fn mad_s16(a: i16, b: i16, c: i16, mode: Mode) -> (r: i16)
    ensures
        r as int == wrap_signed(
            match mode {
                Mode::Low => wrap_signed(a * b, 0x1_0000),
                Mode::High => (a * b) / 0x1_0000,
            } + c,
            0x1_0000,
        ),
{
    add_s16(mul_s16(a, b, mode), c)
}

/// Widening multiply-add on 16-bit unsigned operands into a 32-bit accumulator.
pub fn mad_wide_u16(a: u16, b: u16, c: u32) -> (r: u32)
    ensures
        r as int == wrap_unsigned(a * b + c, 0x1_0000_0000),
{
    let p = mul_wide_u16(a, b);
    ((p as u64 + c as u64) % 0x1_0000_0000) as u32
}

/// Widening multiply-add on 16-bit signed operands into a 32-bit accumulator.
pub fn mad_wide_s16(a: i16, b: i16, c: i32) -> (r: i32)
    ensures
        r as int == wrap_signed(a * b + c, 0x1_0000_0000),
{
    let p = mul_wide_s16(a, b);
    wrap_s32(p as i128 + c as i128)
}

/// Multiply-add on 32-bit signed operands taking the high half of the product and adding
/// `c` with saturation.
pub fn mad_hi_sat_s32(a: i32, b: i32, c: i32) -> (r: i32)
    ensures
        r as int == clamp((a * b) / 0x1_0000_0000 + c, i32::MIN as int, i32::MAX as int),
{
    let (lo, hi) = a.widening_mul(b);
    proof {
        lemma_fundamental_div_mod_converse(a * b, 0x1_0000_0000, hi as int, (lo as u32) as int);
    }
    add_with_saturation_s32(hi, c, true)
}

/// The low 24 bits of `x` read as a two's complement number.
pub open spec fn sext24(x: u32) -> int {
    wrap_signed(x as int, 0x100_0000)
}

/// 24-bit multiplication: the product of the low 24 bits of each operand (sign-extended when
/// `signed`), of which `hi` selects bits 16 to 47 and otherwise bits 0 to 31.
pub open spec fn mul24_spec(a: u32, b: u32, signed: bool, hi: bool) -> int {
    let p = if signed {
        sext24(a) * sext24(b)
    } else {
        (a % 0x100_0000) * (b % 0x100_0000)
    };
    wrap_unsigned(
        if hi {
            p / 0x1_0000
        } else {
            p
        },
        0x1_0000_0000,
    )
}

pub fn mul24(a: u32, b: u32, signed: bool, hi: bool) -> (r: u32)
    ensures
        r as int == mul24_spec(a, b, signed, hi),
{
    if !signed {
        let a24 = (a % 0x100_0000) as u64;
        let b24 = (b % 0x100_0000) as u64;
        assert(a24 * b24 < 0x1_0000_0000_0000) by (nonlinear_arith)
            requires
                a24 < 0x100_0000,
                b24 < 0x100_0000,
        ;
        let p = a24 * b24;
        if hi {
            ((p / 0x1_0000) % 0x1_0000_0000) as u32
        } else {
            (p % 0x1_0000_0000) as u32
        }
    } else {
        let la = a % 0x100_0000;
        let lb = b % 0x100_0000;
        let a24: i64 = if la >= 0x80_0000 {
            la as i64 - 0x100_0000
        } else {
            la as i64
        };
        let b24: i64 = if lb >= 0x80_0000 {
            lb as i64 - 0x100_0000
        } else {
            lb as i64
        };
        assert(-0x4000_0000_0000 <= a24 * b24 <= 0x4000_0000_0000) by (nonlinear_arith)
            requires
                -0x80_0000 <= a24 < 0x80_0000,
                -0x80_0000 <= b24 < 0x80_0000,
        ;
        let p = a24 * b24;
        let t = (p + 0x1_0000_0000_0000) as u64;
        proof {
            lemma_hoist_over_denominator(p as int, 0x1_0000_0000, 0x1_0000);
            lemma_mod_multiples_vanish(1, p / 0x1_0000, 0x1_0000_0000);
            lemma_mod_multiples_vanish(0x1_0000, p as int, 0x1_0000_0000);
        }
        if hi {
            ((t / 0x1_0000) % 0x1_0000_0000) as u32
        } else {
            (t % 0x1_0000_0000) as u32
        }
    }
}

/// Sum of absolute differences on 16-bit operands: `c + |a - b|`, wrapping; with `signed`
/// the operands' bit patterns are read as two's complement numbers.
pub open spec fn sad_spec(a: u16, b: u16, c: u16, signed: bool) -> int {
    let x = if signed {
        wrap_signed(a as int, 0x1_0000)
    } else {
        a as int
    };
    let y = if signed {
        wrap_signed(b as int, 0x1_0000)
    } else {
        b as int
    };
    wrap_unsigned(
        c + if x < y {
            y - x
        } else {
            x - y
        },
        0x1_0000,
    )
}

pub fn sad(a: u16, b: u16, c: u16, signed: bool) -> (r: u16)
    ensures
        r as int == sad_spec(a, b, c, signed),
{
    let x: i64 = if signed && a >= 0x8000 {
        a as i64 - 0x1_0000
    } else {
        a as i64
    };
    let y: i64 = if signed && b >= 0x8000 {
        b as i64 - 0x1_0000
    } else {
        b as i64
    };
    let d = if x < y {
        y - x
    } else {
        x - y
    };
    ((c as i64 + d) % 0x1_0000) as u16
}

/// Byte `i` of `x`.
pub open spec fn byte_of(x: u32, i: nat) -> int {
    (x as int / pow256(i) as int) % 256
}

/// The 16-bit lane `i` of `x`.
pub open spec fn half_of(x: u32, i: nat) -> int {
    (x as int / pow256(2 * i) as int) % 0x1_0000
}

/// A lane value, sign-extended from `bits_mod` when `signed`, zero-extended otherwise.
pub open spec fn extend(v: int, bits_mod: int, signed: bool) -> int {
    if signed {
        wrap_signed(v, bits_mod)
    } else {
        v
    }
}

/// The four bytes of `x`, each sign- or zero-extended.
pub fn sext_or_zext_u8(x: u32, signed: bool) -> (r: [i32; 4])
    ensures
        r[0] as int == extend(byte_of(x, 0), 256, signed),
        r[1] as int == extend(byte_of(x, 1), 256, signed),
        r[2] as int == extend(byte_of(x, 2), 256, signed),
        r[3] as int == extend(byte_of(x, 3), 256, signed),
{
    proof {
        lemma_pow256_eight();
        assert(pow256(0) == 1);
    }
    let b0 = (x % 256) as i32;
    let b1 = ((x / 0x100) % 256) as i32;
    let b2 = ((x / 0x1_0000) % 256) as i32;
    let b3 = ((x / 0x100_0000) % 256) as i32;
    if signed {
        [
            if b0 >= 128 { b0 - 256 } else { b0 },
            if b1 >= 128 { b1 - 256 } else { b1 },
            if b2 >= 128 { b2 - 256 } else { b2 },
            if b3 >= 128 { b3 - 256 } else { b3 },
        ]
    } else {
        [b0, b1, b2, b3]
    }
}

/// The two 16-bit halves of `x`, each sign- or zero-extended.
pub fn sext_or_zext_u16(x: u32, signed: bool) -> (r: [i32; 2])
    ensures
        r[0] as int == extend(half_of(x, 0), 0x1_0000, signed),
        r[1] as int == extend(half_of(x, 1), 0x1_0000, signed),
{
    proof {
        lemma_pow256_eight();
        assert(pow256(0) == 1);
        assert(2 * 1nat == 2);
    }
    let h0 = (x % 0x1_0000) as i32;
    let h1 = ((x / 0x1_0000) % 0x1_0000) as i32;
    if signed {
        [
            if h0 >= 0x8000 { h0 - 0x1_0000 } else { h0 },
            if h1 >= 0x8000 { h1 - 0x1_0000 } else { h1 },
        ]
    } else {
        [h0, h1]
    }
}

pub open spec fn dp4a_spec(a: u32, b: u32, c: u32, a_signed: bool, b_signed: bool) -> int {
    wrap_unsigned(
        c + extend(byte_of(a, 0), 256, a_signed) * extend(byte_of(b, 0), 256, b_signed)
            + extend(byte_of(a, 1), 256, a_signed) * extend(byte_of(b, 1), 256, b_signed)
            + extend(byte_of(a, 2), 256, a_signed) * extend(byte_of(b, 2), 256, b_signed)
            + extend(byte_of(a, 3), 256, a_signed) * extend(byte_of(b, 3), 256, b_signed),
        0x1_0000_0000,
    )
}

pub open spec fn dp2a_spec(a: u32, b: u32, c: u32, hi: bool, a_signed: bool, b_signed: bool) -> int {
    let k: nat = if hi {
        2
    } else {
        0
    };
    wrap_unsigned(
        c + extend(half_of(a, 0), 0x1_0000, a_signed) * extend(byte_of(b, k), 256, b_signed)
            + extend(half_of(a, 1), 0x1_0000, a_signed) * extend(byte_of(b, k + 1), 256, b_signed),
        0x1_0000_0000,
    )
}

/// Reduces an exact sum into 32 unsigned bits.
fn wrap_u32(s: i64) -> (r: u32)
    requires
        -0x100_0000_0000 <= s <= 0x100_0000_0000,
    ensures
        r as int == wrap_unsigned(s as int, 0x1_0000_0000),
{
    let t = (s + 0x100_0000_0000) as u64;
    proof {
        lemma_mod_multiples_vanish(0x100, s as int, 0x1_0000_0000);
    }
    (t % 0x1_0000_0000) as u32
}

/// Four-way byte dot product accumulated into `c`, wrapping.
pub fn dp4a(a: u32, b: u32, c: u32, a_signed: bool, b_signed: bool) -> (r: u32)
    ensures
        r as int == dp4a_spec(a, b, c, a_signed, b_signed),
{
    let x = sext_or_zext_u8(a, a_signed);
    let y = sext_or_zext_u8(b, b_signed);
    let mut s: i64 = c as i64;
    let x0 = x[0] as i64;
    let y0 = y[0] as i64;
    assert(-0x1_0000 <= x0 * y0 <= 0x1_0000) by (nonlinear_arith)
        requires
            -256 <= x0 < 256,
            -256 <= y0 < 256,
    ;
    s = s + x0 * y0;
    let x1 = x[1] as i64;
    let y1 = y[1] as i64;
    assert(-0x1_0000 <= x1 * y1 <= 0x1_0000) by (nonlinear_arith)
        requires
            -256 <= x1 < 256,
            -256 <= y1 < 256,
    ;
    s = s + x1 * y1;
    let x2 = x[2] as i64;
    let y2 = y[2] as i64;
    assert(-0x1_0000 <= x2 * y2 <= 0x1_0000) by (nonlinear_arith)
        requires
            -256 <= x2 < 256,
            -256 <= y2 < 256,
    ;
    s = s + x2 * y2;
    let x3 = x[3] as i64;
    let y3 = y[3] as i64;
    assert(-0x1_0000 <= x3 * y3 <= 0x1_0000) by (nonlinear_arith)
        requires
            -256 <= x3 < 256,
            -256 <= y3 < 256,
    ;
    s = s + x3 * y3;
    wrap_u32(s)
}

/// Two-way dot product of the 16-bit halves of `a` with two bytes of `b` (the upper two
/// when `hi`), accumulated into `c`, wrapping.
pub fn dp2a(a: u32, b: u32, c: u32, hi: bool, a_signed: bool, b_signed: bool) -> (r: u32)
    ensures
        r as int == dp2a_spec(a, b, c, hi, a_signed, b_signed),
{
    let x = sext_or_zext_u16(a, a_signed);
    let y = sext_or_zext_u8(b, b_signed);
    let (y0, y1) = if hi {
        (y[2], y[3])
    } else {
        (y[0], y[1])
    };
    let x0 = x[0] as i64;
    let x1 = x[1] as i64;
    assert(-0x100_0000 <= x0 * (y0 as i64) <= 0x100_0000) by (nonlinear_arith)
        requires
            -0x1_0000 <= x0 < 0x1_0000,
            -256 <= y0 < 256,
    ;
    assert(-0x100_0000 <= x1 * (y1 as i64) <= 0x100_0000) by (nonlinear_arith)
        requires
            -0x1_0000 <= x1 < 0x1_0000,
            -256 <= y1 < 256,
    ;
    wrap_u32(c as i64 + x0 * (y0 as i64) + x1 * (y1 as i64))
}

/// Add or subtract with carry. The result holds the 32-bit sum or difference in its low half
/// and, above it, the carry out when `carry_out` is set, else the carry in unchanged.
pub open spec fn addc_subc_spec(a: u32, b: u32, carry_in: u32, is_sub: bool, carry_out: bool) -> int {
    let cin: int = if is_sub {
        if carry_in == 0 {
            1
        } else {
            0
        }
    } else {
        carry_in as int
    };
    let value = if is_sub {
        wrap_unsigned(a - b - cin, 0x1_0000_0000)
    } else {
        wrap_unsigned(a + b + cin, 0x1_0000_0000)
    };
    let flag: int = if carry_out {
        if is_sub {
            if a >= b + cin {
                1
            } else {
                0
            }
        } else {
            if a + b + cin >= 0x1_0000_0000 {
                1
            } else {
                0
            }
        }
    } else {
        carry_in as int
    };
    value + 0x1_0000_0000 * flag
}

pub fn addc_subc(a: u32, b: u32, carry_in: u32, is_sub: bool, carry_out: bool) -> (r: u64)
    ensures
        r as int == addc_subc_spec(a, b, carry_in, is_sub, carry_out),
{
    let cin: u64 = if is_sub {
        if carry_in == 0 {
            1
        } else {
            0
        }
    } else {
        carry_in as u64
    };
    let value: u64 = if is_sub {
        ((a as u64 + 0x2_0000_0000 - b as u64 - cin) % 0x1_0000_0000)
    } else {
        ((a as u64 + b as u64 + cin) % 0x1_0000_0000)
    };
    proof {
        lemma_mod_multiples_vanish(2, a - b - cin, 0x1_0000_0000);
    }
    let flag: u64 = if carry_out {
        if is_sub {
            if a as u64 >= b as u64 + cin {
                1
            } else {
                0
            }
        } else {
            if a as u64 + b as u64 + cin >= 0x1_0000_0000 {
                1
            } else {
                0
            }
        }
    } else {
        carry_in as u64
    };
    value + 0x1_0000_0000 * flag
}

/// Multiply-add with carry: the low half of `a * b`, plus `c` and the carry in, in the low
/// 32 bits; above them the carry out when `carry_out` is set, else the carry in.
pub open spec fn madc_spec(a: u32, b: u32, c: u32, carry_in: u32, carry_out: bool) -> int {
    let sum = (a * b) % 0x1_0000_0000 + c + carry_in;
    wrap_unsigned(sum, 0x1_0000_0000) + 0x1_0000_0000 * if carry_out {
        if sum >= 0x1_0000_0000 {
            1
        } else {
            0
        }
    } else {
        carry_in as int
    }
}

pub fn madc(a: u32, b: u32, c: u32, carry_in: u32, carry_out: bool) -> (r: u64)
    ensures
        r as int == madc_spec(a, b, c, carry_in, carry_out),
{
    let (lo, _hi) = a.widening_mul(b);
    proof {
        lemma_fundamental_div_mod_converse(a * b, 0x1_0000_0000, _hi as int, lo as int);
    }
    let sum = lo as u64 + c as u64 + carry_in as u64;
    let flag: u64 = if carry_out {
        if sum >= 0x1_0000_0000 {
            1
        } else {
            0
        }
    } else {
        carry_in as u64
    };
    sum % 0x1_0000_0000 + 0x1_0000_0000 * flag
}

} // verus!
