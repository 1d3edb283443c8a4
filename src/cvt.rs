//! Conversions: float to integer under each rounding direction, integer to integer with
//! saturation or truncation, packing, and which modifier combinations are refused.

use vstd::prelude::*;
use vstd::arithmetic::power2::{
    pow2, lemma2_to64, lemma2_to64_rest, lemma_pow2_strictly_increases, lemma_pow2_pos,
};
use vstd::arithmetic::div_mod::lemma_mod_multiples_vanish;
use crate::arith::{clamp, wrap_signed, wrap_unsigned};
use crate::floatbits::{saturate_unit_f32, saturate_unit_spec};
use crate::common::{
    f16_is_nan, f16_mag, f16_sign, flush_f32, flush_to_zero_f32, f32_mag, f32_sign, f32_is_nan, Direction, Rounding,
};
use crate::scalar::PtxScalar;
use crate::shift::pow2_u64;

verus! {

/// The biased exponent field of a single-precision pattern.
pub open spec fn f32_exp(x: u32) -> int {
    f32_mag(x) / 0x80_0000
}

/// The significand as an integer, with the implicit bit of normal numbers.
pub open spec fn f32_sig(x: u32) -> int {
    if f32_exp(x) == 0 {
        f32_mag(x) % 0x80_0000
    } else {
        f32_mag(x) % 0x80_0000 + 0x80_0000
    }
}

/// The power of two that scales the significand: a finite value is `sig * 2^scale`.
pub open spec fn f32_scale(x: u32) -> int {
    (if f32_exp(x) == 0 {
        1
    } else {
        f32_exp(x)
    }) - 150
}

/// Rounds the magnitude `q + r / d` (with `0 <= r < d`) to an integer in direction `dir`,
/// for a value whose sign is `neg`.
pub open spec fn round_mag(q: int, r: int, d: int, dir: Direction, neg: bool) -> int {
    match dir {
        Direction::Zero => q,
        Direction::Nearest => if 2 * r > d || (2 * r == d && q % 2 == 1) {
            q + 1
        } else {
            q
        },
        Direction::Down => if neg && r > 0 {
            q + 1
        } else {
            q
        },
        Direction::Up => if !neg && r > 0 {
            q + 1
        } else {
            q
        },
    }
}

/// A finite single-precision value rounded to an integer in direction `dir`.
pub open spec fn f32_round(x: u32, dir: Direction) -> int {
    round_value(f32_sig(x), f32_scale(x), f32_sign(x), dir)
}

/// The value `sig * 2^scale`, negated when `neg`, rounded to an integer in direction `dir`.
pub open spec fn round_value(sig: int, scale: int, neg: bool, dir: Direction) -> int {
    let mag = if scale >= 0 {
        sig * pow2(scale as nat)
    } else {
        let d = pow2((-scale) as nat) as int;
        round_mag(sig / d, sig % d, d, dir, neg)
    };
    if neg {
        -mag
    } else {
        mag
    }
}

/// Conversion of a non-NaN single-precision value to an integer type with range
/// `lo ..= hi`: rounded in the direction of `rnd`, clamped to the range; infinities go to
/// the range's ends.
pub open spec fn f32_to_int_spec(x: u32, rnd: Rounding, lo: int, hi: int) -> int {
    if f32_mag(x) == 0x7f80_0000 {
        if f32_sign(x) {
            lo
        } else {
            hi
        }
    } else {
        clamp(f32_round(x, rnd.direction()), lo, hi)
    }
}

/// Rounding a value down never gives more than rounding to nearest, which never gives more
/// than rounding up.
pub proof fn lemma_rounding_order(x: u32)
    ensures
        f32_round(x, Direction::Down) <= f32_round(x, Direction::Nearest) <= f32_round(x, Direction::Up),
        f32_round(x, Direction::Down) <= f32_round(x, Direction::Zero) <= f32_round(x, Direction::Up),
{
    lemma_round_value_order(f32_sig(x), f32_scale(x), f32_sign(x));
}

/// Rounding any value `sig * 2^scale` (of either sign) to an integer: down gives at most
/// nearest, nearest at most up, and toward zero lies between down and up.
pub proof fn lemma_round_value_order(sig: int, scale: int, neg: bool)
    requires
        sig >= 0,
    ensures
        round_value(sig, scale, neg, Direction::Down) <= round_value(sig, scale, neg, Direction::Nearest)
            <= round_value(sig, scale, neg, Direction::Up),
        round_value(sig, scale, neg, Direction::Down) <= round_value(sig, scale, neg, Direction::Zero)
            <= round_value(sig, scale, neg, Direction::Up),
{
    if scale < 0 {
        lemma_pow2_pos((-scale) as nat);
        lemma2_to64();
        let d = pow2((-scale) as nat) as int;
        assert(d >= 2) by {
            lemma_pow2_strictly_increases(0, (-scale) as nat);
        }
    }
}

/// The same order after conversion to an integer type, for every pair of rounding modes
/// with those directions.
pub proof fn lemma_conversion_rounding_order(x: u32, lo: int, hi: int)
    requires
        lo <= hi,
    ensures
        f32_to_int_spec(x, Rounding::Rm, lo, hi) <= f32_to_int_spec(x, Rounding::Rn, lo, hi)
            <= f32_to_int_spec(x, Rounding::Rp, lo, hi),
        f32_to_int_spec(x, Rounding::Rmi, lo, hi) <= f32_to_int_spec(x, Rounding::Rni, lo, hi)
            <= f32_to_int_spec(x, Rounding::Rpi, lo, hi),
{
    lemma_rounding_order(x);
}

/// Rounds `sig * 2^scale`, negated when `neg`, to an integer in the direction of `rnd`,
/// clamped to `lo ..= hi`.
pub fn round_to_int(sig: u32, scale: i64, neg: bool, rnd: Rounding, lo: i128, hi: i128) -> (r: i128)
    requires
        sig < 0x100_0000,
        -160 <= scale <= 160,
        -0x1_0000_0000_0000_0000 <= lo <= hi <= 0x1_0000_0000_0000_0000,
    ensures
        r as int == clamp(round_value(sig as int, scale as int, neg, rnd.direction()), lo as int, hi as int),
{
    proof {
        lemma2_to64();
        lemma2_to64_rest();
    }
    if sig == 0 {
        assert(round_value(0, scale as int, neg, rnd.direction()) == 0) by {
            if scale < 0 {
                lemma_pow2_pos((-scale) as nat);
            }
        }
        return if 0 < lo {
            lo
        } else if 0 > hi {
            hi
        } else {
            0
        };
    }
    let sig = sig as u128;
    let mag: u128 = if scale >= 0 {
        if scale >= 64 {
            // At least 2^64: past the end of every range.
            proof {
                if scale > 64 {
                    lemma_pow2_strictly_increases(64, scale as nat);
                }
                assert(sig * pow2(scale as nat) >= pow2(64)) by (nonlinear_arith)
                    requires
                        sig >= 1,
                        pow2(scale as nat) >= pow2(64),
                ;
            }
            return if neg {
                lo
            } else {
                hi
            };
        }
        let p = pow2_u64(scale as u64);
        assert(sig * (p as u128) < 0x100_0000 * 0x1_0000_0000_0000_0000) by (nonlinear_arith)
            requires
                sig < 0x100_0000,
                p < 0x1_0000_0000_0000_0000,
        ;
        sig * (p as u128)
    } else {
        let k = (-scale) as u64;
        let (q, rem, d_small) = if k > 30 {
            proof {
                lemma_pow2_strictly_increases(25, k as nat);
                vstd::arithmetic::div_mod::lemma_basic_div(sig as int, pow2(k as nat) as int);
                vstd::arithmetic::div_mod::lemma_small_mod(sig as nat, pow2(k as nat));
            }
            (0u128, sig, false)
        } else {
            let d = pow2_u64(k) as u128;
            proof {
                lemma_pow2_pos(k as nat);
            }
            (sig / d, sig % d, true)
        };
        let up = match rnd {
            Rounding::Rzi | Rounding::Rz => false,
            Rounding::Default | Rounding::Rni | Rounding::Rn => {
                if !d_small {
                    false
                } else {
                    let d = pow2_u64(k) as u128;
                    2 * rem > d || (2 * rem == d && q % 2 == 1)
                }
            },
            Rounding::Rpi | Rounding::Rp => !neg && rem > 0,
            Rounding::Rmi | Rounding::Rm => neg && rem > 0,
        };
        if up {
            q + 1
        } else {
            q
        }
    };
    let signed: i128 = if neg {
        -(mag as i128)
    } else {
        mag as i128
    };
    if signed < lo {
        lo
    } else if signed > hi {
        hi
    } else {
        signed
    }
}

/// Rounds a non-NaN single-precision value, flushed first when `ftz` is set, to an integer
/// in direction `rnd`, clamped to `lo ..= hi`.
pub fn f32_to_int(x: u32, rnd: Rounding, ftz: bool, lo: i128, hi: i128) -> (r: i128)
    requires
        !f32_is_nan(x),
        -0x1_0000_0000_0000_0000 <= lo <= hi <= 0x1_0000_0000_0000_0000,
    ensures
        r as int == f32_to_int_spec(flush_f32(x, ftz), rnd, lo as int, hi as int),
{
    let mut v = x;
    flush_to_zero_f32(&mut v, ftz);
    let neg = v >= 0x8000_0000;
    let m = v % 0x8000_0000;
    if m == 0x7f80_0000 {
        return if neg {
            lo
        } else {
            hi
        };
    }
    let e = m / 0x80_0000;
    let sig: u32 = if e == 0 {
        m % 0x80_0000
    } else {
        m % 0x80_0000 + 0x80_0000
    };
    let scale: i64 = (if e == 0 {
        1
    } else {
        e as i64
    }) - 150;
    round_to_int(sig, scale, neg, rnd, lo, hi)
}

/// Conversion of a non-NaN half-precision value to an integer type with range `lo ..= hi`:
/// rounded in the direction of `rnd`, clamped to the range; infinities go to the ends.
pub open spec fn f16_to_int_spec(h: u16, rnd: Rounding, lo: int, hi: int) -> int {
    if f16_mag(h) == 0x7c00 {
        if f16_sign(h) {
            lo
        } else {
            hi
        }
    } else {
        clamp(round_value(f16_sig(h), f16_scale(h), f16_sign(h), rnd.direction()), lo, hi)
    }
}

/// Rounds a non-NaN half-precision value to an integer in direction `rnd`, clamped to
/// `lo ..= hi`. Half-precision inputs are never flushed.
pub fn f16_to_int(h: u16, rnd: Rounding, lo: i128, hi: i128) -> (r: i128)
    requires
        !f16_is_nan(h),
        -0x1_0000_0000_0000_0000 <= lo <= hi <= 0x1_0000_0000_0000_0000,
    ensures
        r as int == f16_to_int_spec(h, rnd, lo as int, hi as int),
{
    let neg = h >= 0x8000;
    let m = h % 0x8000;
    if m == 0x7c00 {
        return if neg {
            lo
        } else {
            hi
        };
    }
    let e = m / 0x400;
    let sig: u32 = if e == 0 {
        (m % 0x400) as u32
    } else {
        (m % 0x400 + 0x400) as u32
    };
    let scale: i64 = (if e == 0 {
        1
    } else {
        e as i64
    }) - 25;
    round_to_int(sig, scale, neg, rnd, lo, hi)
}

/// Conversion from single precision to a signed 32-bit integer; `None` for NaN, whose
/// conversion the device does not define.
pub fn cvt_s32_f32(x: u32, rnd: Rounding, ftz: bool) -> (r: Option<i32>)
    ensures
        f32_is_nan(x) ==> r is None,
        !f32_is_nan(x) ==> r == Some(
            f32_to_int_spec(flush_f32(x, ftz), rnd, i32::MIN as int, i32::MAX as int) as i32,
        ),
{
    if x % 0x8000_0000 > 0x7f80_0000 {
        None
    } else {
        Some(f32_to_int(x, rnd, ftz, i32::MIN as i128, i32::MAX as i128) as i32)
    }
}

/// Conversion from single precision to an unsigned 32-bit integer; `None` for NaN.
pub fn cvt_u32_f32(x: u32, rnd: Rounding, ftz: bool) -> (r: Option<u32>)
    ensures
        f32_is_nan(x) ==> r is None,
        !f32_is_nan(x) ==> r == Some(
            f32_to_int_spec(flush_f32(x, ftz), rnd, 0, u32::MAX as int) as u32,
        ),
{
    if x % 0x8000_0000 > 0x7f80_0000 {
        None
    } else {
        Some(f32_to_int(x, rnd, ftz, 0, u32::MAX as i128) as u32)
    }
}

/// Integer-to-integer conversion into a destination of `bits` bits: clamped to the
/// destination's range with `sat`, otherwise truncated to its low bits.
pub open spec fn int_convert_spec(v: int, bits: nat, signed: bool, sat: bool) -> int {
    let m = pow2(bits) as int;
    if sat {
        if signed {
            clamp(v, -m / 2, m / 2 - 1)
        } else {
            clamp(v, 0, m - 1)
        }
    } else if signed {
        wrap_signed(v, m)
    } else {
        wrap_unsigned(v, m)
    }
}

/// Converts `v` into an integer of `bits` bits, computing the range check on a 128-bit
/// intermediate so that it cannot overflow.
pub fn int_convert(v: i128, bits: u64, signed: bool, sat: bool) -> (r: i128)
    requires
        bits == 16 || bits == 32 || bits == 64,
        -0x1_0000_0000_0000_0000 <= v <= 0x1_0000_0000_0000_0000,
    ensures
        r as int == int_convert_spec(v as int, bits as nat, signed, sat),
{
    proof {
        lemma2_to64();
        lemma2_to64_rest();
    }
    let m: i128 = if bits == 16 {
        0x1_0000
    } else if bits == 32 {
        0x1_0000_0000
    } else {
        0x1_0000_0000_0000_0000
    };
    if sat {
        let (lo, hi) = if signed {
            (-m / 2, m / 2 - 1)
        } else {
            (0, m - 1)
        };
        if v <= lo {
            lo
        } else if v >= hi {
            hi
        } else {
            v
        }
    } else {
        let t = (v + 0x4_0000_0000_0000_0000) as u128;
        proof {
            lemma_mod_multiples_vanish(0x4_0000_0000_0000_0000int / m as int, v as int, m as int);
        }
        let w = (t % (m as u128)) as i128;
        if signed && w >= m / 2 {
            w - m
        } else {
            w
        }
    }
}

pub open spec fn kind_signed<T: PtxScalar>() -> bool {
    !T::spec_float() && !T::spec_unsigned()
}

pub open spec fn kind_is_f32<T: PtxScalar>() -> bool {
    T::spec_float() && T::spec_size() == 4
}

/// Combinations of rounding, flush and saturation modifiers that a conversion from `I` to
/// `O` does not accept.
pub open spec fn cvt_invalid_spec<O: PtxScalar, I: PtxScalar>(rnd: Rounding, ftz: bool, sat: bool) -> bool {
    let (of, inf) = (O::spec_float(), I::spec_float());
    let (os, is) = (O::spec_size(), I::spec_size());
    (sat && ((kind_signed::<I>() && kind_signed::<O>() && os >= is) || (I::spec_unsigned()
        && O::spec_unsigned() && os >= is) || (I::spec_unsigned() && kind_signed::<O>() && os
        > is))) || (ftz && !kind_is_f32::<O>() && !kind_is_f32::<I>()) || (rnd
        == Rounding::Default && ((of && inf && os < is) || (of && !inf) || (!of && inf))) || (
    rnd.spec_is_integer() && !((inf && !of) || (inf && of && os == is))) || (rnd
        != Rounding::Default && !rnd.spec_is_integer() && !((!inf && of) || (inf && of && os
        < is)))
}

pub fn is_invalid_cvt<O: PtxScalar, I: PtxScalar>(rnd: Rounding, ftz: bool, sat: bool) -> (r: bool)
    ensures
        r == cvt_invalid_spec::<O, I>(rnd, ftz, sat),
{
    if sat {
        if I::signed() && O::signed() && O::size_of() >= I::size_of() {
            return true;
        }
        if I::unsigned() && O::unsigned() && O::size_of() >= I::size_of() {
            return true;
        }
        if I::unsigned() && O::signed() && O::size_of() > I::size_of() {
            return true;
        }
    }
    if ftz {
        if !O::is_f32() && !I::is_f32() {
            return true;
        }
    }
    let default = rnd == Rounding::Default;
    if default && O::float() && I::float() && O::size_of() < I::size_of() {
        return true;
    }
    if default && O::float() && !I::float() {
        return true;
    }
    if default && !O::float() && I::float() {
        return true;
    }
    if rnd.is_integer() {
        if !(I::float() && !O::float() || I::float() && O::float() && O::size_of()
            == I::size_of()) {
            return true;
        }
    } else if !default {
        if !(!I::float() && O::float() || I::float() && O::float() && O::size_of()
            < I::size_of()) {
            return true;
        }
    }
    false
}

/// Whether a float-to-float conversion flushes a subnormal input before converting: only
/// with `ftz` and a single-precision input, and into half precision only under an
/// integer rounding modifier.
pub open spec fn input_ftz_spec<O: PtxScalar, I: PtxScalar>(ftz: bool, rnd: Rounding) -> bool {
    ftz && I::spec_size() == 4 && (O::spec_size() == 2 ==> rnd.spec_is_integer())
}

pub fn float_to_float_input_ftz<O: PtxScalar, I: PtxScalar>(ftz: bool, rnd: Rounding) -> (r: bool)
    ensures
        r == input_ftz_spec::<O, I>(ftz, rnd),
{
    if ftz && I::size_of() == 4 {
        if O::size_of() == 2 {
            rnd.is_integer()
        } else {
            true
        }
    } else {
        false
    }
}

/// Packing conversion: `a` and `b` saturated to 8 bits (signed when `signed`), with the
/// byte of `b` lowest, then the byte of `a`, then the low half of `c` in the upper 16 bits.
pub open spec fn cvt_pack_spec(a: i32, b: i32, c: u32, signed: bool) -> int {
    let (lo, hi) = if signed {
        (-128int, 127int)
    } else {
        (0int, 255int)
    };
    wrap_unsigned(clamp(b as int, lo, hi), 256) + 0x100 * wrap_unsigned(clamp(a as int, lo, hi), 256)
        + 0x1_0000 * (c as int % 0x1_0000)
}

pub fn cvt_pack_sat(a: i32, b: i32, c: u32, signed: bool) -> (r: u32)
    ensures
        r as int == cvt_pack_spec(a, b, c, signed),
{
    let (lo, hi): (i32, i32) = if signed {
        (-128, 127)
    } else {
        (0, 255)
    };
    let ta = if a < lo {
        lo
    } else if a > hi {
        hi
    } else {
        a
    };
    let tb = if b < lo {
        lo
    } else if b > hi {
        hi
    } else {
        b
    };
    let byte_a = ((ta + 256) % 256) as u32;
    let byte_b = ((tb + 256) % 256) as u32;
    proof {
        vstd::arithmetic::div_mod::lemma_mod_multiples_vanish(1, ta as int, 256);
        vstd::arithmetic::div_mod::lemma_mod_multiples_vanish(1, tb as int, 256);
    }
    byte_b + 0x100 * byte_a + 0x1_0000 * (c % 0x1_0000)
}

/// The number of binary digits of `n`.
pub open spec fn bit_length(n: nat) -> nat
    decreases n,
{
    if n == 0 {
        0
    } else {
        1 + bit_length(n / 2)
    }
}

/// Whether rounding in direction `dir` moves a value of sign `neg` away from zero when it
/// does not fit.
pub open spec fn rounds_away(dir: Direction, neg: bool) -> bool {
    match dir {
        Direction::Nearest => true,
        Direction::Zero => false,
        Direction::Up => !neg,
        Direction::Down => neg,
    }
}

/// The half-precision magnitude pattern of a finite non-zero single-precision value, rounded
/// in direction `dir`. With `e` the exponent of the value's leading bit, the result's
/// quantum is `2^qe`, `qe = max(e - 10, -24)`; the rounded count `m` of quanta gives the
/// pattern `(qe + 24) * 1024 + m`, which also covers subnormal results and a carry into the
/// next binade. Patterns from infinity's on are the largest finite value or infinity,
/// by direction.
pub open spec fn f16_magnitude(x: u32, dir: Direction) -> int {
    let sig = f32_sig(x);
    let scale = f32_scale(x);
    let e = bit_length(sig as nat) - 1 + scale;
    let qe = if e - 10 > -24 {
        e - 10
    } else {
        -24
    };
    let shift = qe - scale;
    let m = if shift <= 0 {
        sig * pow2((-shift) as nat)
    } else {
        let d = pow2(shift as nat) as int;
        round_mag(sig / d, sig % d, d, dir, f32_sign(x))
    };
    let bits = (qe + 24) * 1024 + m;
    if bits >= 0x7c00 {
        if rounds_away(dir, f32_sign(x)) {
            0x7c00
        } else {
            0x7bff
        }
    } else {
        bits
    }
}

/// Conversion from single to half precision under rounding `rnd`: NaN stays NaN (the quiet
/// pattern), infinities and zeros keep their sign, and other values are rounded.
pub open spec fn cvt_f16_f32_spec(x: u32, rnd: Rounding) -> u16 {
    let sign: int = if f32_sign(x) {
        0x8000
    } else {
        0
    };
    if f32_is_nan(x) {
        (sign + 0x7e00) as u16
    } else if f32_mag(x) == 0x7f80_0000 {
        (sign + 0x7c00) as u16
    } else if f32_mag(x) == 0 {
        sign as u16
    } else {
        (sign + f16_magnitude(x, rnd.direction())) as u16
    }
}

pub proof fn lemma_bit_length_bound(n: nat)
    ensures
        n < pow2(bit_length(n)),
        n > 0 ==> pow2((bit_length(n) - 1) as nat) <= n,
    decreases n,
{
    lemma2_to64();
    if n > 0 {
        lemma_bit_length_bound(n / 2);
        vstd::arithmetic::power2::lemma_pow2_unfold(bit_length(n));
        if n / 2 > 0 {
            vstd::arithmetic::power2::lemma_pow2_unfold(bit_length(n / 2));
        }
    }
}

/// The number of binary digits of `n`, for `n` below `2^24`.
fn bit_length_exec(n: u32) -> (r: u32)
    requires
        n < 0x100_0000,
    ensures
        r as nat == bit_length(n as nat),
        r <= 24,
{
    let mut k: u32 = 0;
    let mut v: u32 = n;
    proof {
        lemma2_to64();
    }
    while v > 0
        invariant
            bit_length(n as nat) == k + bit_length(v as nat),
            v < 0x100_0000,
            n < 0x100_0000,
            v as nat * pow2(k as nat) <= n,
            k <= 24,
        decreases v,
    {
        proof {
            lemma2_to64();
            if k >= 24 {
                if k > 24 {
                    vstd::arithmetic::power2::lemma_pow2_strictly_increases(24, k as nat);
                }
                assert(v as nat * pow2(k as nat) >= pow2(k as nat)) by (nonlinear_arith)
                    requires
                        v >= 1,
                ;
                assert(false);
            }
            vstd::arithmetic::power2::lemma_pow2_unfold((k + 1) as nat);
            assert((v / 2) as nat * pow2((k + 1) as nat) <= v as nat * pow2(k as nat)) by (nonlinear_arith)
                requires
                    pow2((k + 1) as nat) == 2 * pow2(k as nat),
            ;
        }
        v = v / 2;
        k = k + 1;
    }
    k
}

pub fn cvt_f16_f32(x: u32, rnd: Rounding) -> (r: u16)
    ensures
        r == cvt_f16_f32_spec(x, rnd),
{
    let neg = x >= 0x8000_0000;
    let sign: u32 = if neg {
        0x8000
    } else {
        0
    };
    let mag = x % 0x8000_0000;
    if mag > 0x7f80_0000 {
        return (sign + 0x7e00) as u16;
    }
    if mag == 0x7f80_0000 {
        return (sign + 0x7c00) as u16;
    }
    if mag == 0 {
        return sign as u16;
    }
    let e = mag / 0x80_0000;
    let sig: u32 = if e == 0 {
        mag % 0x80_0000
    } else {
        mag % 0x80_0000 + 0x80_0000
    };
    let scale: i64 = (if e == 0 {
        1
    } else {
        e as i64
    }) - 150;
    let len = bit_length_exec(sig);
    let lead: i64 = len as i64 - 1 + scale;
    let qe: i64 = if lead - 10 > -24 {
        lead - 10
    } else {
        -24
    };
    let shift: i64 = qe - scale;
    proof {
        lemma2_to64();
        lemma2_to64_rest();
    }
    let m: u64 = if shift <= 0 {
        // The value is a whole number of quanta; it then has at most 11 significant bits.
        let p = pow2_u64((-shift) as u64);
        proof {
            lemma_bit_length_bound(sig as nat);
            let k = (-shift) as nat;
            // `len + k <= 11`: the leading bit of the value is at most at quantum 2^10.
            assert(len + k <= 11);
            vstd::arithmetic::power2::lemma_pow2_adds(len as nat, k);
            if len + k < 11 {
                vstd::arithmetic::power2::lemma_pow2_strictly_increases((len + k) as nat, 11);
            }
            assert(sig as nat * pow2(k) < pow2(len as nat) * pow2(k)) by (nonlinear_arith)
                requires
                    (sig as nat) < pow2(len as nat),
                    pow2(k) > 0,
            {
            }
            lemma_pow2_pos(k);
        }
        sig as u64 * p
    } else {
        let (q, rem, d_small): (u64, u64, bool) = if shift > 40 {
            proof {
                vstd::arithmetic::power2::lemma_pow2_strictly_increases(25, shift as nat);
                vstd::arithmetic::div_mod::lemma_basic_div(sig as int, pow2(shift as nat) as int);
                vstd::arithmetic::div_mod::lemma_small_mod(sig as nat, pow2(shift as nat));
            }
            (0, sig as u64, false)
        } else {
            let d = pow2_u64(shift as u64);
            proof {
                lemma_pow2_pos(shift as nat);
            }
            (sig as u64 / d, sig as u64 % d, true)
        };
        let up = match rnd {
            Rounding::Rzi | Rounding::Rz => false,
            Rounding::Default | Rounding::Rni | Rounding::Rn => {
                if !d_small {
                    false
                } else {
                    let d = pow2_u64(shift as u64);
                    2 * rem > d || (2 * rem == d && q % 2 == 1)
                }
            },
            Rounding::Rpi | Rounding::Rp => !neg && rem > 0,
            Rounding::Rmi | Rounding::Rm => neg && rem > 0,
        };
        if up {
            q + 1
        } else {
            q
        }
    };
    let bits: i64 = (qe + 24) * 1024 + m as i64;
    let away = match rnd {
        Rounding::Rzi | Rounding::Rz => false,
        Rounding::Default | Rounding::Rni | Rounding::Rn => true,
        Rounding::Rpi | Rounding::Rp => !neg,
        Rounding::Rmi | Rounding::Rm => neg,
    };
    let magnitude: u32 = if bits >= 0x7c00 {
        if away {
            0x7c00
        } else {
            0x7bff
        }
    } else {
        bits as u32
    };
    (sign + magnitude) as u16
}

/// Saturation of a half-precision result to `[0.0, 1.0]`: NaN and values up to zero become
/// +0.0, values above one become 1.0.
pub open spec fn saturate_unit_f16_spec(h: u16) -> u16 {
    let key = if h >= 0x8000 {
        -(h as int % 0x8000)
    } else {
        h as int
    };
    if h as int % 0x8000 > 0x7c00 || key <= 0 {
        0
    } else if key > 0x3c00 {
        0x3c00
    } else {
        h
    }
}

/// Conversion from single to half precision with the instruction's modifiers: rounding
/// `rnd`, then saturation when `sat` is set. Half-precision results are not flushed, and a
/// single-precision input is flushed only under an integer rounding modifier with `ftz`.
pub open spec fn cvt_f16_f32_full_spec(x: u32, rnd: Rounding, ftz: bool, sat: bool) -> u16 {
    let input = flush_f32(x, ftz && rnd.spec_is_integer());
    let h = cvt_f16_f32_spec(input, rnd);
    if sat {
        saturate_unit_f16_spec(h)
    } else {
        h
    }
}

pub fn cvt_f16_f32_full(x: u32, rnd: Rounding, ftz: bool, sat: bool) -> (r: u16)
    ensures
        r == cvt_f16_f32_full_spec(x, rnd, ftz, sat),
{
    let mut input = x;
    flush_to_zero_f32(&mut input, ftz && rnd.is_integer());
    let h = cvt_f16_f32(input, rnd);
    if !sat {
        return h;
    }
    let m = h % 0x8000;
    let key: i32 = if h >= 0x8000 {
        -(m as i32)
    } else {
        h as i32
    };
    if m > 0x7c00 || key <= 0 {
        0
    } else if key > 0x3c00 {
        0x3c00
    } else {
        h
    }
}

/// The magnitude pattern of the float nearest, in direction `dir`, to `sig * 2^scale`
/// (with `sig > 0`) in a binary format of `prec` significand bits whose smallest quantum is
/// `2^min_qe` and whose infinity is `inf`: the quantum is `2^qe` with
/// `qe = max(e - prec + 1, min_qe)` for the leading bit's exponent `e`, and `m` quanta give
/// the pattern `(qe - min_qe) * 2^(prec - 1) + m`. Patterns from infinity's on are the
/// largest finite value or infinity, by direction.
pub open spec fn float_magnitude(sig: nat, scale: int, neg: bool, dir: Direction, prec: nat, min_qe: int, inf: int) -> int {
    let e = bit_length(sig) - 1 + scale;
    let qe = if e - (prec - 1) > min_qe {
        e - (prec - 1)
    } else {
        min_qe
    };
    let shift = qe - scale;
    let n = sig as int;
    let m: int = if shift <= 0 {
        n * pow2((-shift) as nat)
    } else {
        let d = pow2(shift as nat) as int;
        round_mag(n / d, n % d, d, dir, neg)
    };
    let bits = (qe - min_qe) * pow2((prec - 1) as nat) + m;
    if bits >= inf {
        if rounds_away(dir, neg) {
            inf
        } else {
            inf - 1
        }
    } else {
        bits
    }
}

/// An integer converted to a float format (see `float_magnitude`), with the sign bit
/// `sign_bit`; zero converts to +0.0.
pub open spec fn int_to_float_spec(v: int, rnd: Rounding, prec: nat, min_qe: int, inf: int, sign_bit: int) -> int {
    if v == 0 {
        0
    } else if v < 0 {
        sign_bit + float_magnitude((-v) as nat, 0, true, rnd.direction(), prec, min_qe, inf)
    } else {
        float_magnitude(v as nat, 0, false, rnd.direction(), prec, min_qe, inf)
    }
}

/// The number of binary digits of `n`, for `n` below `2^40`.
fn bit_length_u64(n: u64) -> (r: u64)
    requires
        n < 0x100_0000_0000,
    ensures
        r as nat == bit_length(n as nat),
        r <= 40,
{
    let mut k: u64 = 0;
    let mut v: u64 = n;
    proof {
        lemma2_to64();
        lemma2_to64_rest();
    }
    while v > 0
        invariant
            bit_length(n as nat) == k + bit_length(v as nat),
            n < 0x100_0000_0000,
            v as nat * pow2(k as nat) <= n,
            k <= 40,
        decreases v,
    {
        proof {
            lemma2_to64();
            lemma2_to64_rest();
            if k >= 40 {
                if k > 40 {
                    vstd::arithmetic::power2::lemma_pow2_strictly_increases(40, k as nat);
                }
                assert(v as nat * pow2(k as nat) >= pow2(k as nat)) by (nonlinear_arith)
                    requires
                        v >= 1,
                ;
                assert(false);
            }
            vstd::arithmetic::power2::lemma_pow2_unfold((k + 1) as nat);
            assert((v / 2) as nat * pow2((k + 1) as nat) <= v as nat * pow2(k as nat)) by (nonlinear_arith)
                requires
                    pow2((k + 1) as nat) == 2 * pow2(k as nat),
            ;
        }
        v = v / 2;
        k = k + 1;
    }
    k
}

/// Converts an integer of at most 33 significant bits to single (`half` false) or half
/// precision under rounding `rnd`, returning the bit pattern.
pub fn int_to_float(v: i64, rnd: Rounding, half: bool) -> (r: u32)
    requires
        -0x1_0000_0000 <= v <= 0x1_0000_0000,
    ensures
        r as int == if half {
            int_to_float_spec(v as int, rnd, 11, -24, 0x7c00, 0x8000)
        } else {
            int_to_float_spec(v as int, rnd, 24, -149, 0x7f80_0000, 0x8000_0000)
        },
{
    if v == 0 {
        return 0;
    }
    let neg = v < 0;
    let sig: u64 = if neg {
        (-v) as u64
    } else {
        v as u64
    };
    let (prec, min_qe, inf, sign_bit): (u64, i64, u64, u64) = if half {
        (11, -24, 0x7c00, 0x8000)
    } else {
        (24, -149, 0x7f80_0000, 0x8000_0000)
    };
    let len = bit_length_u64(sig);
    let lead: i64 = len as i64 - 1;
    let qe: i64 = if lead - (prec as i64 - 1) > min_qe {
        lead - (prec as i64 - 1)
    } else {
        min_qe
    };
    let shift: i64 = qe;
    proof {
        lemma2_to64();
        lemma2_to64_rest();
        lemma_bit_length_bound(sig as nat);
    }
    let m: u64 = if shift <= 0 {
        let k = (-shift) as u64;
        let p = pow2_u64(k);
        proof {
            assert(len + k <= prec);
            vstd::arithmetic::power2::lemma_pow2_adds(len as nat, k as nat);
            if len + k < 24 {
                vstd::arithmetic::power2::lemma_pow2_strictly_increases((len + k) as nat, 24);
            }
            lemma_pow2_pos(k as nat);
            assert(sig as nat * pow2(k as nat) < pow2(len as nat) * pow2(k as nat)) by (nonlinear_arith)
                requires
                    (sig as nat) < pow2(len as nat),
                    pow2(k as nat) > 0,
            ;
        }
        sig * p
    } else {
        let d = pow2_u64(shift as u64);
        proof {
            lemma_pow2_pos(shift as nat);
        }
        let q = sig / d;
        let rem = sig % d;
        proof {
            vstd::arithmetic::div_mod::lemma_div_is_ordered_by_denominator(sig as int, 1, d as int);
        }
        assert(q <= sig);
        let up = match rnd {
            Rounding::Rzi | Rounding::Rz => false,
            Rounding::Default | Rounding::Rni | Rounding::Rn => 2 * rem > d || (2 * rem == d && q % 2
                == 1),
            Rounding::Rpi | Rounding::Rp => !neg && rem > 0,
            Rounding::Rmi | Rounding::Rm => neg && rem > 0,
        };
        if up {
            q + 1
        } else {
            q
        }
    };
    let unit = pow2_u64(prec - 1);
    assert(unit <= 0x80_0000);
    assert(qe - min_qe <= 200);
    assert(m <= 0x2_0000_0000);
    assert(0 <= (qe - min_qe) * (unit as i64) <= 200 * 0x80_0000) by (nonlinear_arith)
        requires
            0 <= qe - min_qe <= 200,
            unit <= 0x80_0000,
    ;
    let bits: i64 = (qe - min_qe) * unit as i64 + m as i64;
    let away = match rnd {
        Rounding::Rzi | Rounding::Rz => false,
        Rounding::Default | Rounding::Rni | Rounding::Rn => true,
        Rounding::Rpi | Rounding::Rp => !neg,
        Rounding::Rmi | Rounding::Rm => neg,
    };
    let magnitude: u64 = if bits >= inf as i64 {
        if away {
            inf
        } else {
            inf - 1
        }
    } else {
        bits as u64
    };
    if neg {
        (sign_bit + magnitude) as u32
    } else {
        magnitude as u32
    }
}

pub fn saturate_unit_f16(h: u16) -> (r: u16)
    ensures
        r == saturate_unit_f16_spec(h),
{
    let m = h % 0x8000;
    let key: i32 = if h >= 0x8000 {
        -(m as i32)
    } else {
        h as i32
    };
    if m > 0x7c00 || key <= 0 {
        0
    } else if key > 0x3c00 {
        0x3c00
    } else {
        h
    }
}

/// The biased exponent field of a half-precision pattern.
pub open spec fn f16_exp(h: u16) -> int {
    f16_mag(h) / 0x400
}

/// The significand of a half-precision pattern as an integer, with the implicit bit of
/// normal numbers.
pub open spec fn f16_sig(h: u16) -> int {
    if f16_exp(h) == 0 {
        f16_mag(h) % 0x400
    } else {
        f16_mag(h) % 0x400 + 0x400
    }
}

/// The power of two that scales the significand: a finite value is `sig * 2^scale`.
pub open spec fn f16_scale(h: u16) -> int {
    (if f16_exp(h) == 0 {
        1
    } else {
        f16_exp(h)
    }) - 25
}

/// A finite half-precision value times `2^149`, an integer.
pub open spec fn f16_scaled(h: u16) -> int {
    f16_sig(h) * pow2((f16_scale(h) + 149) as nat)
}

/// A finite single-precision value times `2^149`, an integer.
pub open spec fn f32_scaled(x: u32) -> int {
    f32_sig(x) * pow2((f32_scale(x) + 149) as nat)
}

/// Widens a half-precision pattern to single precision. Finite values keep their sign and
/// their value exactly, infinities stay infinities and NaN stays NaN.
pub fn widen_f16(h: u16) -> (r: u32)
    ensures
        f16_is_nan(h) ==> f32_is_nan(r),
        !f16_is_nan(h) ==> f32_sign(r) == f16_sign(h),
        f16_mag(h) == 0x7c00 ==> f32_mag(r) == 0x7f80_0000,
        f16_mag(h) < 0x7c00 ==> f32_mag(r) < 0x7f80_0000 && f32_scaled(r) == f16_scaled(h),
{
    let sign: u32 = if h >= 0x8000 {
        0x8000_0000
    } else {
        0
    };
    let mag = (h % 0x8000) as u32;
    let e = mag / 0x400;
    let frac = mag % 0x400;
    proof {
        lemma2_to64();
        lemma2_to64_rest();
    }
    if e == 0x1f {
        return sign + 0x7f80_0000 + frac * 0x2000;
    }
    if e != 0 {
        let r = sign + (e + 112) * 0x80_0000 + frac * 0x2000;
        proof {
            let m32 = ((e + 112) * 0x80_0000 + frac * 0x2000) as int;
            vstd::arithmetic::div_mod::lemma_fundamental_div_mod_converse(
                m32,
                0x80_0000,
                (e + 112) as int,
                (frac * 0x2000) as int,
            );
            assert(r as int % 0x8000_0000 == m32);
            vstd::arithmetic::power2::lemma_pow2_adds(13, (e + 111) as nat);
            assert(f32_scale(r) + 149 == e + 111);
            assert(f16_scale(h) + 149 == e + 124);
            assert(f32_sig(r) == (frac + 0x400) * pow2(13));
            assert(f32_scaled(r) == f16_scaled(h)) by (nonlinear_arith)
                requires
                    f32_scaled(r) == f32_sig(r) * pow2((e + 111) as nat),
                    f16_scaled(h) == f16_sig(h) * pow2((e + 124) as nat),
                    f32_sig(r) == (frac + 0x400) * pow2(13),
                    f16_sig(h) == frac + 0x400,
                    pow2((13 + (e + 111)) as nat) == pow2(13) * pow2((e + 111) as nat),
                    (13 + (e + 111)) as nat == (e + 124) as nat,
            ;
        }
        return r;
    }
    if frac == 0 {
        assert(f32_sig(sign) == 0 && f16_sig(h) == 0);
        assert(f32_scaled(sign) == 0 && f16_scaled(h) == 0);
        return sign;
    }
    // A subnormal half becomes a normal single: shift the significand up to the implicit
    // bit and lower the exponent to match.
    let l = bit_length_exec(frac);
    proof {
        lemma_bit_length_bound(frac as nat);
    }
    let k = 11 - l;
    let p = pow2_u64(k as u64);
    proof {
        vstd::arithmetic::power2::lemma_pow2_adds((l - 1) as nat, k as nat);
        vstd::arithmetic::power2::lemma_pow2_adds(l as nat, k as nat);
        lemma_pow2_pos(k as nat);
        assert(frac as nat * pow2(k as nat) >= pow2((l - 1) as nat) * pow2(k as nat)) by (nonlinear_arith)
            requires
                frac as nat >= pow2((l - 1) as nat),
                pow2(k as nat) > 0,
        ;
        assert(frac as nat * pow2(k as nat) < pow2(l as nat) * pow2(k as nat)) by (nonlinear_arith)
            requires
                (frac as nat) < pow2(l as nat),
                pow2(k as nat) > 0,
        ;
    }
    let n = frac as u64 * p;
    assert(0x400 <= n < 0x800);
    let e32 = (113 - k) as u32;
    let r = sign + e32 * 0x80_0000 + ((n - 0x400) as u32) * 0x2000;
    proof {
        let m32 = (e32 * 0x80_0000 + (n - 0x400) * 0x2000) as int;
        vstd::arithmetic::div_mod::lemma_fundamental_div_mod_converse(
            m32,
            0x80_0000,
            e32 as int,
            ((n - 0x400) * 0x2000) as int,
        );
        assert(r as int % 0x8000_0000 == m32);
        vstd::arithmetic::power2::lemma_pow2_adds(13, (112 - k) as nat);
        vstd::arithmetic::power2::lemma_pow2_adds(k as nat, (125 - k) as nat);
        assert(f32_scale(r) + 149 == 112 - k);
        assert(f16_scale(h) + 149 == 125);
        assert(f32_sig(r) == n * pow2(13));
        let a = pow2(13);
        let b = pow2((112 - k) as nat);
        let c = pow2((125 - k) as nat);
        let pk = pow2(k as nat);
        assert(c == a * b);
        assert(pow2(125) == pk * c);
        assert(f32_scaled(r) == n * a * b) by (nonlinear_arith)
            requires
                f32_scaled(r) == f32_sig(r) * b,
                f32_sig(r) == n * a,
        ;
        assert(n * a * b == frac * pk * c) by (nonlinear_arith)
            requires
                n == frac * pk,
                c == a * b,
        ;
        assert(frac * pk * c == f16_scaled(h)) by (nonlinear_arith)
            requires
                f16_scaled(h) == f16_sig(h) * pow2(125),
                f16_sig(h) == frac,
                pow2(125) == pk * c,
        ;
    }
    r
}

/// Rounding into a float format is ordered as well: for a positive value the magnitude
/// rounded down is at most the one rounded to nearest, which is at most the one rounded up;
/// for a negative value the order of magnitudes is reversed, so that the values keep it.
pub proof fn lemma_float_rounding_order(sig: nat, scale: int, prec: nat, min_qe: int, inf: int)
    requires
        sig > 0,
        prec >= 1,
    ensures
        float_magnitude(sig, scale, false, Direction::Down, prec, min_qe, inf) <= float_magnitude(
            sig, scale, false, Direction::Nearest, prec, min_qe, inf,
        ) <= float_magnitude(sig, scale, false, Direction::Up, prec, min_qe, inf),
        float_magnitude(sig, scale, true, Direction::Up, prec, min_qe, inf) <= float_magnitude(
            sig, scale, true, Direction::Nearest, prec, min_qe, inf,
        ) <= float_magnitude(sig, scale, true, Direction::Down, prec, min_qe, inf),
{
    let e = bit_length(sig) - 1 + scale;
    let qe = if e - (prec - 1) > min_qe {
        e - (prec - 1)
    } else {
        min_qe
    };
    let shift = qe - scale;
    if shift > 0 {
        lemma_pow2_pos(shift as nat);
        lemma2_to64();
        assert(pow2(shift as nat) >= 2) by {
            vstd::arithmetic::power2::lemma_pow2_strictly_increases(0, shift as nat);
        }
    }
}

/// The same order for conversion from single to half precision.
pub proof fn lemma_half_rounding_order(x: u32)
    requires
        !f32_is_nan(x),
        f32_mag(x) != 0x7f80_0000,
        f32_mag(x) != 0,
    ensures
        !f32_sign(x) ==> f16_magnitude(x, Direction::Down) <= f16_magnitude(x, Direction::Nearest)
            <= f16_magnitude(x, Direction::Up),
        f32_sign(x) ==> f16_magnitude(x, Direction::Up) <= f16_magnitude(x, Direction::Nearest)
            <= f16_magnitude(x, Direction::Down),
{
    let sig = f32_sig(x);
    let scale = f32_scale(x);
    let e = bit_length(sig as nat) - 1 + scale;
    let qe = if e - 10 > -24 {
        e - 10
    } else {
        -24
    };
    let shift = qe - scale;
    if shift > 0 {
        lemma_pow2_pos(shift as nat);
        lemma2_to64();
        assert(pow2(shift as nat) >= 2) by {
            vstd::arithmetic::power2::lemma_pow2_strictly_increases(0, shift as nat);
        }
    }
}

/// A single-precision value rounded to an integral value in direction `dir`, kept in single
/// precision: NaN, infinities and values that are already integral are unchanged, and a
/// result of zero keeps the sign of the input.
pub open spec fn round_integral_f32(x: u32, dir: Direction) -> u32 {
    if f32_is_nan(x) || f32_mag(x) == 0x7f80_0000 || f32_scale(x) >= 0 {
        x
    } else {
        let v = round_value(f32_sig(x), f32_scale(x), f32_sign(x), dir);
        if v == 0 {
            if f32_sign(x) {
                0x8000_0000u32
            } else {
                0u32
            }
        } else {
            int_to_float_spec(v, Rounding::Rn, 24, -149, 0x7f80_0000, 0x8000_0000) as u32
        }
    }
}

/// The same for half precision.
pub open spec fn round_integral_f16(h: u16, dir: Direction) -> u16 {
    if f16_is_nan(h) || f16_mag(h) == 0x7c00 || f16_scale(h) >= 0 {
        h
    } else {
        let v = round_value(f16_sig(h), f16_scale(h), f16_sign(h), dir);
        if v == 0 {
            if f16_sign(h) {
                0x8000u16
            } else {
                0u16
            }
        } else {
            int_to_float_spec(v, Rounding::Rn, 11, -24, 0x7c00, 0x8000) as u16
        }
    }
}

/// A value below one in magnitude rounds to at most one; in general the rounded magnitude
/// is at most the significand plus one when the scale is negative.
proof fn lemma_round_value_small(sig: int, scale: int, neg: bool, dir: Direction)
    requires
        0 <= sig,
        scale < 0,
    ensures
        -(sig + 1) <= round_value(sig, scale, neg, dir) <= sig + 1,
{
    lemma_pow2_pos((-scale) as nat);
    vstd::arithmetic::div_mod::lemma_div_is_ordered_by_denominator(sig, 1, pow2((-scale) as nat) as int);
}

pub fn round_integral_f32_exec(x: u32, rnd: Rounding) -> (r: u32)
    ensures
        r == round_integral_f32(x, rnd.direction()),
{
    let neg = x >= 0x8000_0000;
    let m = x % 0x8000_0000;
    if m >= 0x7f80_0000 {
        return x;
    }
    let e = m / 0x80_0000;
    let sig: u32 = if e == 0 {
        m % 0x80_0000
    } else {
        m % 0x80_0000 + 0x80_0000
    };
    let scale: i64 = (if e == 0 {
        1
    } else {
        e as i64
    }) - 150;
    if scale >= 0 {
        return x;
    }
    proof {
        lemma_round_value_small(sig as int, scale as int, neg, rnd.direction());
    }
    let v = round_to_int(sig, scale, neg, rnd, -0x1_0000_0000_0000_0000, 0x1_0000_0000_0000_0000);
    if v == 0 {
        if neg {
            0x8000_0000
        } else {
            0
        }
    } else {
        int_to_float(v as i64, Rounding::Rn, false)
    }
}

pub fn round_integral_f16_exec(h: u16, rnd: Rounding) -> (r: u16)
    ensures
        r == round_integral_f16(h, rnd.direction()),
{
    let neg = h >= 0x8000;
    let m = h % 0x8000;
    if m >= 0x7c00 {
        return h;
    }
    let e = m / 0x400;
    let sig: u32 = if e == 0 {
        (m % 0x400) as u32
    } else {
        (m % 0x400 + 0x400) as u32
    };
    let scale: i64 = (if e == 0 {
        1
    } else {
        e as i64
    }) - 25;
    if scale >= 0 {
        return h;
    }
    proof {
        lemma_round_value_small(sig as int, scale as int, neg, rnd.direction());
    }
    let v = round_to_int(sig, scale, neg, rnd, -0x1_0000_0000_0000_0000, 0x1_0000_0000_0000_0000);
    if v == 0 {
        if neg {
            0x8000
        } else {
            0
        }
    } else {
        int_to_float(v as i64, Rounding::Rn, true) as u16
    }
}

/// Conversion from single to single precision: the input flushed with `ftz`, rounded to an
/// integral value under an integer rounding modifier (otherwise unchanged), flushed again
/// with `ftz`, then saturated with `sat`.
pub open spec fn cvt_f32_f32_spec(x: u32, rnd: Rounding, ftz: bool, sat: bool) -> u32 {
    let i = flush_f32(x, ftz);
    let r = if rnd.spec_is_integer() {
        round_integral_f32(i, rnd.direction())
    } else {
        i
    };
    let o = flush_f32(r, ftz);
    if sat {
        saturate_unit_spec(o)
    } else {
        o
    }
}

pub fn cvt_f32_f32(x: u32, rnd: Rounding, ftz: bool, sat: bool) -> (r: u32)
    ensures
        r == cvt_f32_f32_spec(x, rnd, ftz, sat),
{
    let mut v = x;
    flush_to_zero_f32(&mut v, ftz);
    let mut o = if rnd.is_integer() {
        round_integral_f32_exec(v, rnd)
    } else {
        v
    };
    flush_to_zero_f32(&mut o, ftz);
    if sat {
        saturate_unit_f32(o)
    } else {
        o
    }
}

/// Conversion from half to half precision: rounded to an integral value under an integer
/// rounding modifier (otherwise unchanged), then saturated with `sat`. Half precision is
/// never flushed.
pub open spec fn cvt_f16_f16_spec(h: u16, rnd: Rounding, sat: bool) -> u16 {
    let r = if rnd.spec_is_integer() {
        round_integral_f16(h, rnd.direction())
    } else {
        h
    };
    if sat {
        saturate_unit_f16_spec(r)
    } else {
        r
    }
}

pub fn cvt_f16_f16(h: u16, rnd: Rounding, sat: bool) -> (r: u16)
    ensures
        r == cvt_f16_f16_spec(h, rnd, sat),
{
    let r = if rnd.is_integer() {
        round_integral_f16_exec(h, rnd)
    } else {
        h
    };
    if sat {
        saturate_unit_f16(r)
    } else {
        r
    }
}

/// The double-precision pattern of `sig * 2^scale`, negated when `neg`. Every value that
/// reaches it (a single- or half-precision value, or a 32-bit integer) is representable, so
/// the nearest double is the value itself.
pub open spec fn to_f64_spec(sig: nat, scale: int, neg: bool) -> int {
    let sign: int = if neg {
        0x8000_0000_0000_0000
    } else {
        0
    };
    if sig == 0 {
        sign
    } else {
        sign + float_magnitude(sig, scale, neg, Direction::Nearest, 53, -1074, 0x7ff0_0000_0000_0000)
    }
}

pub fn to_f64(sig: u64, scale: i64, neg: bool) -> (r: u64)
    requires
        sig < 0x100_0000_0000,
        -200 <= scale <= 200,
    ensures
        r as int == to_f64_spec(sig as nat, scale as int, neg),
{
    let sign: u64 = if neg {
        0x8000_0000_0000_0000
    } else {
        0
    };
    if sig == 0 {
        return sign;
    }
    let len = bit_length_u64(sig);
    proof {
        lemma2_to64();
        lemma2_to64_rest();
        lemma_bit_length_bound(sig as nat);
    }
    let k = 53 - len;
    let p = pow2_u64(k);
    proof {
        vstd::arithmetic::power2::lemma_pow2_adds(len as nat, k as nat);
        lemma_pow2_pos(k as nat);
        assert(sig as nat * pow2(k as nat) < pow2(len as nat) * pow2(k as nat)) by (nonlinear_arith)
            requires
                (sig as nat) < pow2(len as nat),
                pow2(k as nat) > 0,
        ;
    }
    let m = sig * p;
    let qe: i64 = len as i64 - 1 + scale - 52;
    let unit = pow2_u64(52);
    let bits = ((qe + 1074) as u64) * unit + m;
    proof {
        assert(((qe + 1074) as u64) * unit <= 1300 * 0x10_0000_0000_0000) by (nonlinear_arith)
            requires
                0 <= qe + 1074 <= 1300,
                unit == 0x10_0000_0000_0000,
        ;
    }
    sign + bits
}

/// Saturation of a double-precision result to `[0.0, 1.0]`: NaN and values up to zero
/// become +0.0, values above one become 1.0.
pub open spec fn saturate_unit_f64_spec(x: u64) -> u64 {
    let mag = x as int % 0x8000_0000_0000_0000;
    let key = if x >= 0x8000_0000_0000_0000 {
        -mag
    } else {
        mag
    };
    if mag > 0x7ff0_0000_0000_0000 || key <= 0 {
        0
    } else if key > 0x3ff0_0000_0000_0000 {
        0x3ff0_0000_0000_0000
    } else {
        x
    }
}

pub fn saturate_unit_f64(x: u64) -> (r: u64)
    ensures
        r == saturate_unit_f64_spec(x),
{
    let mag = x % 0x8000_0000_0000_0000;
    let neg = x >= 0x8000_0000_0000_0000;
    if mag > 0x7ff0_0000_0000_0000 || mag == 0 || neg {
        0
    } else if mag > 0x3ff0_0000_0000_0000 {
        0x3ff0_0000_0000_0000
    } else {
        x
    }
}

/// Widening single precision to double precision, after flushing the input with `ftz` and
/// saturating with `sat`: NaN stays NaN, infinities stay infinite, finite values are kept.
pub open spec fn cvt_f64_f32_spec(x: u32, ftz: bool, sat: bool) -> u64 {
    let i = flush_f32(x, ftz);
    let w: u64 = if f32_is_nan(i) {
        if f32_sign(i) {
            0xfff8_0000_0000_0000
        } else {
            0x7ff8_0000_0000_0000
        }
    } else if f32_mag(i) == 0x7f80_0000 {
        if f32_sign(i) {
            0xfff0_0000_0000_0000
        } else {
            0x7ff0_0000_0000_0000
        }
    } else {
        to_f64_spec(f32_sig(i) as nat, f32_scale(i), f32_sign(i)) as u64
    };
    if sat {
        saturate_unit_f64_spec(w)
    } else {
        w
    }
}

pub fn cvt_f64_f32(x: u32, ftz: bool, sat: bool) -> (r: u64)
    ensures
        r == cvt_f64_f32_spec(x, ftz, sat),
{
    let mut i = x;
    flush_to_zero_f32(&mut i, ftz);
    let neg = i >= 0x8000_0000;
    let m = i % 0x8000_0000;
    let w: u64 = if m > 0x7f80_0000 {
        if neg {
            0xfff8_0000_0000_0000
        } else {
            0x7ff8_0000_0000_0000
        }
    } else if m == 0x7f80_0000 {
        if neg {
            0xfff0_0000_0000_0000
        } else {
            0x7ff0_0000_0000_0000
        }
    } else {
        let e = m / 0x80_0000;
        let sig: u64 = if e == 0 {
            (m % 0x80_0000) as u64
        } else {
            (m % 0x80_0000 + 0x80_0000) as u64
        };
        let scale: i64 = (if e == 0 {
            1
        } else {
            e as i64
        }) - 150;
        to_f64(sig, scale, neg)
    };
    if sat {
        saturate_unit_f64(w)
    } else {
        w
    }
}

/// Widening half precision to double precision, saturating with `sat`.
pub open spec fn cvt_f64_f16_spec(h: u16, sat: bool) -> u64 {
    let w: u64 = if f16_is_nan(h) {
        if f16_sign(h) {
            0xfff8_0000_0000_0000
        } else {
            0x7ff8_0000_0000_0000
        }
    } else if f16_mag(h) == 0x7c00 {
        if f16_sign(h) {
            0xfff0_0000_0000_0000
        } else {
            0x7ff0_0000_0000_0000
        }
    } else {
        to_f64_spec(f16_sig(h) as nat, f16_scale(h), f16_sign(h)) as u64
    };
    if sat {
        saturate_unit_f64_spec(w)
    } else {
        w
    }
}

pub fn cvt_f64_f16(h: u16, sat: bool) -> (r: u64)
    ensures
        r == cvt_f64_f16_spec(h, sat),
{
    let neg = h >= 0x8000;
    let m = h % 0x8000;
    let w: u64 = if m > 0x7c00 {
        if neg {
            0xfff8_0000_0000_0000
        } else {
            0x7ff8_0000_0000_0000
        }
    } else if m == 0x7c00 {
        if neg {
            0xfff0_0000_0000_0000
        } else {
            0x7ff0_0000_0000_0000
        }
    } else {
        let e = m / 0x400;
        let sig: u64 = if e == 0 {
            (m % 0x400) as u64
        } else {
            (m % 0x400 + 0x400) as u64
        };
        let scale: i64 = (if e == 0 {
            1
        } else {
            e as i64
        }) - 25;
        to_f64(sig, scale, neg)
    };
    if sat {
        saturate_unit_f64(w)
    } else {
        w
    }
}

/// An integer converted to double precision, exactly, then saturated with `sat`.
pub open spec fn cvt_f64_int_spec(v: int, sat: bool) -> u64 {
    let w = if v < 0 {
        to_f64_spec((-v) as nat, 0, true)
    } else {
        to_f64_spec(v as nat, 0, false)
    } as u64;
    if sat {
        saturate_unit_f64_spec(w)
    } else {
        w
    }
}

pub fn cvt_f64_int(v: i64, sat: bool) -> (r: u64)
    requires
        -0x1_0000_0000 <= v <= 0x1_0000_0000,
    ensures
        r == cvt_f64_int_spec(v as int, sat),
{
    let w = if v < 0 {
        to_f64((-v) as u64, 0, true)
    } else {
        to_f64(v as u64, 0, false)
    };
    if sat {
        saturate_unit_f64(w)
    } else {
        w
    }
}

} // verus!
