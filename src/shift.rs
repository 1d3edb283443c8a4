//! Shifts: 16-bit shifts, funnel shifts and the vector shift right.

use vstd::prelude::*;
use vstd::arithmetic::power2::{
    pow2, lemma2_to64, lemma2_to64_rest, lemma_pow2_strictly_increases, lemma_pow2_pos,
};
use vstd::arithmetic::div_mod::lemma_fundamental_div_mod;
use crate::arith::{clamp, wrap_signed, wrap_unsigned};
use vstd::bits::{lemma_u64_shl_is_mul, lemma_u64_shr_is_div};

verus! {

/// `2^s` for a shift amount below 64.
pub fn pow2_u64(s: u64) -> (r: u64)
    requires
        s < 64,
    ensures
        r as nat == pow2(s as nat),
{
    proof {
        lemma2_to64_rest();
        lemma_pow2_strictly_increases(s as nat, 64);
        lemma_u64_shl_is_mul(1, s);
    }
    1u64 << s
}

/// Left shift of a 16-bit value; shifting by 16 or more clears it.
pub fn shl_b16(value: u16, shift: u16) -> (r: u16)
    ensures
        r as int == if shift >= 16 {
            0
        } else {
            (value * pow2(shift as nat)) % 0x1_0000
        },
{
    if shift >= 16 {
        0
    } else {
        let p = pow2_u64(shift as u64);
        proof {
            lemma2_to64();
            if shift < 15 {
                lemma_pow2_strictly_increases(shift as nat, 15);
            }
        }
        assert(value * p <= 0xffff * 0x8000) by (nonlinear_arith)
            requires
                value <= 0xffff,
                p <= 0x8000,
        ;
        ((value as u64 * p) % 0x1_0000) as u16
    }
}

/// Logical right shift of a 16-bit value; shifting by 16 or more clears it.
pub fn shr_u16(value: u16, shift: u16) -> (r: u16)
    ensures
        r as int == if shift >= 16 {
            0
        } else {
            value as int / pow2(shift as nat) as int
        },
{
    if shift >= 16 {
        0
    } else {
        let p = pow2_u64(shift as u64);
        proof {
            lemma_pow2_pos(shift as nat);
        }
        (value as u64 / p) as u16
    }
}

/// Arithmetic right shift of a 16-bit signed value, rounding toward minus infinity; a shift
/// of 16 or more acts as a shift by 15 and leaves only copies of the sign.
pub fn shr_s16(value: i16, shift: u16) -> (r: i16)
    ensures
        r as int == value as int / pow2(if shift >= 16 {
            15
        } else {
            shift as nat
        }) as int,
{
    let s: u64 = if shift >= 16 {
        15
    } else {
        shift as u64
    };
    let p = pow2_u64(s);
    proof {
        lemma2_to64();
        lemma_pow2_pos(s as nat);
        if s < 15 {
            lemma_pow2_strictly_increases(s as nat, 15);
        }
    }
    // Offset by a multiple of the divisor so that the division is on a non-negative number.
    let k = 0x8000 / p;
    assert(k * p == 0x8000) by {
        vstd::arithmetic::power2::lemma_pow2_adds((15 - s) as nat, s as nat);
        vstd::arithmetic::div_mod::lemma_div_by_multiple(pow2((15 - s) as nat) as int, p as int);
    }
    let t = (value as i64 + 0x8000) as u64;
    let q = t / p;
    proof {
        vstd::arithmetic::div_mod::lemma_hoist_over_denominator(value as int, k as int, p as nat);
    }
    (q as i64 - k as i64) as i16
}

/// The shift amount of a funnel shift: clamped to 32, or taken modulo 32.
pub open spec fn shf_amount(c: u32, clamp: bool) -> nat {
    if clamp {
        if c < 32 {
            c as nat
        } else {
            32
        }
    } else {
        (c % 32) as nat
    }
}

/// Funnel shift of the 64-bit value `b:a`: to the left it yields the upper 32 bits of the
/// shifted value, to the right the lower 32 bits.
pub open spec fn shf_spec(a: u32, b: u32, c: u32, left: bool, clamp: bool) -> int {
    let v = b * 0x1_0000_0000 + a;
    let s = shf_amount(c, clamp);
    if left {
        (v * pow2(s) / 0x1_0000_0000) % 0x1_0000_0000
    } else {
        (v / pow2(s) as int) % 0x1_0000_0000
    }
}

pub fn shf(a: u32, b: u32, c: u32, left: bool, clamp: bool) -> (r: u32)
    ensures
        r as int == shf_spec(a, b, c, left, clamp),
{
    let s: u64 = if clamp {
        if c < 32 {
            c as u64
        } else {
            32
        }
    } else {
        (c % 32) as u64
    };
    let v: u64 = b as u64 * 0x1_0000_0000 + a as u64;
    let p = pow2_u64(s);
    proof {
        lemma2_to64();
        lemma2_to64_rest();
        lemma_pow2_pos(s as nat);
        if s < 32 {
            lemma_pow2_strictly_increases(s as nat, 32);
        }
    }
    if left {
        assert((v as u128) * (p as u128) <= 0xffff_ffff_ffff_ffff * 0x1_0000_0000) by (nonlinear_arith)
            requires
                v <= 0xffff_ffff_ffff_ffff,
                p <= 0x1_0000_0000,
        ;
        (((v as u128) * (p as u128) / 0x1_0000_0000) % 0x1_0000_0000) as u32
    } else {
        ((v / p) % 0x1_0000_0000) as u32
    }
}

/// The shift of `vshr`: by `b` clamped (a shift of 32 or more leaves only the sign) or by
/// `b` modulo 32; arithmetic for signed operands, rounding toward minus infinity.
pub open spec fn vshr_shifted(a: int, a_signed: bool, b: u32, clamp_mode: bool) -> int {
    if clamp_mode && b >= 32 {
        if a_signed && a < 0 {
            -1
        } else {
            0
        }
    } else {
        a / pow2(if clamp_mode {
            b as nat
        } else {
            (b % 32) as nat
        }) as int
    }
}

/// A value brought into the 32-bit destination: clamped with `sat`, else truncated.
pub open spec fn to_dest(x: int, d_signed: bool, sat: bool) -> int {
    if sat {
        if d_signed {
            clamp(x, i32::MIN as int, i32::MAX as int)
        } else {
            clamp(x, 0, u32::MAX as int)
        }
    } else if d_signed {
        wrap_signed(x, 0x1_0000_0000)
    } else {
        wrap_unsigned(x, 0x1_0000_0000)
    }
}

/// Shift right, bring into the destination, then optionally add `c` with wrapping.
pub open spec fn vshr_spec(a: int, a_signed: bool, b: u32, c: int, d_signed: bool, clamp_mode: bool, sat: bool, add: bool) -> int {
    let d = to_dest(vshr_shifted(a, a_signed, b, clamp_mode), d_signed, sat);
    if add {
        to_dest(d + c, d_signed, false)
    } else {
        d
    }
}

/// Brings `x` into the 32-bit destination (see `to_dest`).
fn to_dest_exec(x: i64, d_signed: bool, sat: bool) -> (r: i64)
    requires
        -0x2_0000_0000 <= x <= 0x2_0000_0000,
    ensures
        r as int == to_dest(x as int, d_signed, sat),
        -0x8000_0000 <= r <= 0xffff_ffff,
{
    let (lo, hi): (i64, i64) = if d_signed {
        (i32::MIN as i64, i32::MAX as i64)
    } else {
        (0, u32::MAX as i64)
    };
    if sat {
        if x < lo {
            lo
        } else if x > hi {
            hi
        } else {
            x
        }
    } else {
        let t = (x + 0x4_0000_0000) as u64;
        proof {
            vstd::arithmetic::div_mod::lemma_mod_multiples_vanish(4, x as int, 0x1_0000_0000);
        }
        let m = (t % 0x1_0000_0000) as i64;
        if d_signed && m >= 0x8000_0000 {
            m - 0x1_0000_0000
        } else {
            m
        }
    }
}

/// Vector shift right with optional saturation and a secondary addition, on 32-bit
/// operands given by their values (`a` of the source kind, `c` of the destination kind).
pub fn vshr(a: i64, a_signed: bool, b: u32, c: i64, d_signed: bool, clamp_mode: bool, sat: bool, add: bool) -> (r: i64)
    requires
        if a_signed {
            i32::MIN <= a <= i32::MAX
        } else {
            0 <= a <= u32::MAX
        },
        if d_signed {
            i32::MIN <= c <= i32::MAX
        } else {
            0 <= c <= u32::MAX
        },
    ensures
        r as int == vshr_spec(a as int, a_signed, b, c as int, d_signed, clamp_mode, sat, add),
{
    let shifted: i64 = if clamp_mode && b >= 32 {
        if a_signed && a < 0 {
            -1
        } else {
            0
        }
    } else {
        let s: u64 = if clamp_mode {
            b as u64
        } else {
            (b % 32) as u64
        };
        let p = pow2_u64(s);
        proof {
            lemma2_to64();
            lemma_pow2_pos(s as nat);
            if s < 31 {
                lemma_pow2_strictly_increases(s as nat, 31);
            }
        }
        // Offset by a multiple of the divisor so that the division is on a non-negative number.
        let k = 0x8000_0000 / p;
        assert(k * p == 0x8000_0000) by {
            vstd::arithmetic::power2::lemma_pow2_adds((31 - s) as nat, s as nat);
            vstd::arithmetic::div_mod::lemma_div_by_multiple(pow2((31 - s) as nat) as int, p as int);
        }
        let t = (a + 0x8000_0000) as u64;
        proof {
            vstd::arithmetic::div_mod::lemma_hoist_over_denominator(a as int, k as int, p as nat);
        }
        (t / p) as i64 - k as i64
    };
    let d = to_dest_exec(shifted, d_signed, sat);
    if add {
        to_dest_exec(d + c, d_signed, false)
    } else {
        d
    }
}

} // verus!
