//! Bit-field extraction and insertion, and bit reversal, over a model of numbers as bits.

use vstd::prelude::*;
use vstd::arithmetic::power2::{
    pow2, lemma_pow2_pos, lemma2_to64, lemma2_to64_rest, lemma_pow2_unfold,
};
use vstd::arithmetic::div_mod::{lemma_div_denominator, lemma_fundamental_div_mod};
use vstd::bits::lemma_u64_shr_is_div;

verus! {

/// Bit `k` of `x`.
pub open spec fn bit(x: nat, k: nat) -> bool {
    (x / pow2(k)) % 2 == 1
}

/// The number whose bit `j` is `f(start + j)`, for `j < n`, and whose other bits are clear.
pub open spec fn from_bits_at(f: spec_fn(nat) -> bool, start: nat, n: nat) -> nat
    decreases n,
{
    if n == 0 {
        0
    } else {
        (if f(start) {
            1nat
        } else {
            0nat
        }) + 2 * from_bits_at(f, start + 1, (n - 1) as nat)
    }
}

pub proof fn lemma_from_bits_bound(f: spec_fn(nat) -> bool, start: nat, n: nat)
    ensures
        from_bits_at(f, start, n) < pow2(n),
    decreases n,
{
    if n == 0 {
        assert(pow2(0) == 1) by {
            lemma2_to64();
        }
        lemma_pow2_pos(0);
    } else {
        lemma_from_bits_bound(f, start + 1, (n - 1) as nat);
        lemma_pow2_unfold(n);
    }
}

pub proof fn lemma_bit_step(x: nat, k: nat)
    ensures
        bit(x, 0) == (x % 2 == 1),
        bit(x, k + 1) == bit(x / 2, k),
{
    lemma_pow2_unfold(1);
    assert(pow2(0) == 1) by {
        lemma2_to64();
    }
    lemma_pow2_unfold(k + 1);
    lemma_pow2_pos(k);
    lemma_div_denominator(x as int, 2, pow2(k) as int);
    assert(pow2(k + 1) == 2 * pow2(k));
    assert(2 * pow2(k) == pow2(k) * 2) by (nonlinear_arith);
}

/// Bit `j` of the assembled number is the `j`-th chosen bit.
pub proof fn lemma_from_bits_bit(f: spec_fn(nat) -> bool, start: nat, n: nat, j: nat)
    requires
        j < n,
    ensures
        bit(from_bits_at(f, start, n), j) == f(start + j),
    decreases n,
{
    let v = from_bits_at(f, start, n);
    let rest = from_bits_at(f, start + 1, (n - 1) as nat);
    let c: nat = if f(start) {
        1
    } else {
        0
    };
    assert(v == c + 2 * rest);
    assert(v % 2 == c);
    assert(v / 2 == rest);
    if j == 0 {
        lemma_bit_step(v, 0);
    } else {
        lemma_bit_step(v, (j - 1) as nat);
        lemma_from_bits_bit(f, start + 1, (n - 1) as nat, (j - 1) as nat);
    }
}

/// Two numbers below `2^n` with the same low `n` bits are equal.
pub proof fn lemma_bits_determine(x: nat, y: nat, n: nat)
    requires
        x < pow2(n),
        y < pow2(n),
        forall|j: nat| j < n ==> bit(x, j) == bit(y, j),
    ensures
        x == y,
    decreases n,
{
    if n == 0 {
        lemma2_to64();
    } else {
        lemma_pow2_unfold(n);
        lemma_bit_step(x, 0);
        lemma_bit_step(y, 0);
        assert forall|j: nat| j < (n - 1) as nat implies #[trigger] bit(x / 2, j) == bit(y / 2, j) by {
            lemma_bit_step(x, j);
            lemma_bit_step(y, j);
            assert(bit(x, j + 1) == bit(y, j + 1));
        }
        lemma_bits_determine(x / 2, y / 2, (n - 1) as nat);
        lemma_fundamental_div_mod(x as int, 2);
        lemma_fundamental_div_mod(y as int, 2);
    }
}

/// Reads bit `k` of `x`.
pub fn get_bit(x: u64, k: u64) -> (r: bool)
    requires
        k < 64,
    ensures
        r == bit(x as nat, k as nat),
{
    proof {
        lemma_u64_shr_is_div(x, k);
    }
    (x >> k) % 2 == 1
}

/// The sign bit that extraction replicates: the highest extracted bit, for signed kinds only.
pub open spec fn bfe_sign(value: nat, pos: nat, len: nat, width: nat, signed: bool) -> bool {
    signed && len > 0 && bit(
        value,
        if pos + len - 1 < width - 1 {
            (pos + len - 1) as nat
        } else {
            (width - 1) as nat
        },
    )
}

/// Bit `i` of a field extraction: the `i`-th bit of the field while it lies inside the
/// operand, the sign bit beyond that.
pub open spec fn bfe_bit(value: nat, pos: nat, len: nat, width: nat, signed: bool, i: nat) -> bool {
    if i < len && pos + i < width {
        bit(value, pos + i)
    } else {
        bfe_sign(value, pos, len, width, signed)
    }
}

pub open spec fn bfe_spec(value: nat, pos: nat, len: nat, width: nat, signed: bool) -> nat {
    from_bits_at(|i: nat| bfe_bit(value, pos, len, width, signed, i), 0, width)
}

/// Bit `j` of a field insertion: bits `pos .. pos + len` come from `a`, the rest from `b`.
pub open spec fn bfi_bit(a: nat, b: nat, pos: nat, len: nat, j: nat) -> bool {
    if pos <= j < pos + len {
        bit(a, (j - pos) as nat)
    } else {
        bit(b, j)
    }
}

pub open spec fn bfi_spec(a: nat, b: nat, pos: nat, len: nat, width: nat) -> nat {
    from_bits_at(|j: nat| bfi_bit(a, b, pos, len, j), 0, width)
}

pub open spec fn brev_spec(x: nat, width: nat) -> nat {
    from_bits_at(|j: nat| bit(x, (width - 1 - j) as nat), 0, width)
}

/// Extracts `len` bits of `value` from bit `pos` on, over an operand of `width` bits.
pub fn bfe_bits(value: u64, pos: u64, len: u64, width: u64, signed: bool) -> (r: u64)
    requires
        1 <= width <= 64,
        pos <= u32::MAX,
        len <= u32::MAX,
    ensures
        r as nat == bfe_spec(value as nat, pos as nat, len as nat, width as nat, signed),
        (r as nat) < pow2(width as nat),
{
    let ghost f = |i: nat| bfe_bit(value as nat, pos as nat, len as nat, width as nat, signed, i);
    let msb = width - 1;
    let sbit = if !signed || len == 0 {
        false
    } else {
        let top = if pos + len - 1 < msb {
            pos + len - 1
        } else {
            msb
        };
        get_bit(value, top)
    };
    let mut d: u64 = 0;
    let mut j: u64 = width;
    proof {
        lemma2_to64();
    }
    while j > 0
        invariant
            j <= width <= 64,
            msb == width - 1,
            pos <= u32::MAX,
            len <= u32::MAX,
            sbit == bfe_sign(value as nat, pos as nat, len as nat, width as nat, signed),
            d as nat == from_bits_at(f, j as nat, (width - j) as nat),
            f == (|i: nat| bfe_bit(value as nat, pos as nat, len as nat, width as nat, signed, i)),
        decreases j,
    {
        let i = j - 1;
        let b = if i < len && pos + i <= msb {
            get_bit(value, pos + i)
        } else {
            sbit
        };
        assert(b == f(i as nat));
        proof {
            lemma_from_bits_bound(f, j as nat, (width - j) as nat);
            if width - j < 63 {
                vstd::arithmetic::power2::lemma_pow2_strictly_increases((width - j) as nat, 63);
            }
            assert(pow2((width - j) as nat) <= pow2(63));
            lemma2_to64_rest();
        }
        let bv: u64 = if b {
            1
        } else {
            0
        };
        d = 2 * d + bv;
        j = i;
    }
    proof {
        lemma_from_bits_bound(f, 0, width as nat);
    }
    d
}

/// Inserts the low `len` bits of `a` into `b` from bit `pos` on, over `width` bits;
/// the part of the field that lies past the operand is dropped.
pub fn bfi_bits(a: u64, b: u64, pos: u64, len: u64, width: u64) -> (r: u64)
    requires
        1 <= width <= 64,
        pos <= u32::MAX,
        len <= u32::MAX,
    ensures
        r as nat == bfi_spec(a as nat, b as nat, pos as nat, len as nat, width as nat),
        (r as nat) < pow2(width as nat),
{
    let ghost f = |j: nat| bfi_bit(a as nat, b as nat, pos as nat, len as nat, j);
    let mut d: u64 = 0;
    let mut j: u64 = width;
    while j > 0
        invariant
            j <= width <= 64,
            pos <= u32::MAX,
            len <= u32::MAX,
            d as nat == from_bits_at(f, j as nat, (width - j) as nat),
            f == (|j: nat| bfi_bit(a as nat, b as nat, pos as nat, len as nat, j)),
        decreases j,
    {
        let i = j - 1;
        let x = if pos <= i && i < pos + len {
            get_bit(a, i - pos)
        } else {
            get_bit(b, i)
        };
        assert(x == f(i as nat));
        proof {
            lemma_from_bits_bound(f, j as nat, (width - j) as nat);
            if width - j < 63 {
                vstd::arithmetic::power2::lemma_pow2_strictly_increases((width - j) as nat, 63);
            }
            lemma2_to64_rest();
        }
        let xv: u64 = if x {
            1
        } else {
            0
        };
        d = 2 * d + xv;
        j = i;
    }
    proof {
        lemma_from_bits_bound(f, 0, width as nat);
    }
    d
}

/// Reverses the order of the low `width` bits of `x`.
pub fn brev_bits(x: u64, width: u64) -> (r: u64)
    requires
        1 <= width <= 64,
    ensures
        r as nat == brev_spec(x as nat, width as nat),
        (r as nat) < pow2(width as nat),
{
    let ghost f = |j: nat| bit(x as nat, (width - 1 - j) as nat);
    let mut d: u64 = 0;
    let mut j: u64 = width;
    while j > 0
        invariant
            j <= width <= 64,
            d as nat == from_bits_at(f, j as nat, (width - j) as nat),
            f == (|j: nat| bit(x as nat, (width - 1 - j) as nat)),
        decreases j,
    {
        let i = j - 1;
        let y = get_bit(x, width - 1 - i);
        assert(y == f(i as nat));
        proof {
            lemma_from_bits_bound(f, j as nat, (width - j) as nat);
            if width - j < 63 {
                vstd::arithmetic::power2::lemma_pow2_strictly_increases((width - j) as nat, 63);
            }
            lemma2_to64_rest();
        }
        let yv: u64 = if y {
            1
        } else {
            0
        };
        d = 2 * d + yv;
        j = i;
    }
    proof {
        lemma_from_bits_bound(f, 0, width as nat);
    }
    d
}

/// Field extraction on a 32-bit unsigned operand; only the low byte of `pos` and of `len`
/// counts, as the hardware does for 32-bit operands.
pub fn bfe_u32(value: u32, pos: u32, len: u32) -> (r: u32)
    ensures
        r as nat == bfe_spec(value as nat, (pos % 256) as nat, (len % 256) as nat, 32, false),
{
    let d = bfe_bits(value as u64, (pos % 256) as u64, (len % 256) as u64, 32, false);
    proof {
        lemma2_to64();
    }
    d as u32
}

/// Field extraction on a 32-bit signed operand, over its bit pattern; only the low byte of
/// `pos` and of `len` counts.
pub fn bfe_s32(value: i32, pos: u32, len: u32) -> (r: i32)
    ensures
        (r as u32) as nat == bfe_spec(
            (value as u32) as nat,
            (pos % 256) as nat,
            (len % 256) as nat,
            32,
            true,
        ),
        r == (bfe_spec((value as u32) as nat, (pos % 256) as nat, (len % 256) as nat, 32, true)
            as u32) as i32,
{
    let d = bfe_bits((value as u32) as u64, (pos % 256) as u64, (len % 256) as u64, 32, true);
    proof {
        lemma2_to64();
    }
    let bits = d as u32;
    assert((bits as i32) as u32 == bits) by (bit_vector);
    bits as i32
}

/// Field extraction on a 64-bit unsigned operand; `pos` and `len` count in full.
pub fn bfe_u64(value: u64, pos: u32, len: u32) -> (r: u64)
    ensures
        r as nat == bfe_spec(value as nat, pos as nat, len as nat, 64, false),
{
    bfe_bits(value, pos as u64, len as u64, 64, false)
}

/// Field extraction on a 64-bit signed operand; `pos` and `len` count in full.
pub fn bfe_s64(value: i64, pos: u32, len: u32) -> (r: i64)
    ensures
        (r as u64) as nat == bfe_spec((value as u64) as nat, pos as nat, len as nat, 64, true),
        r == (bfe_spec((value as u64) as nat, pos as nat, len as nat, 64, true) as u64) as i64,
{
    let bits = bfe_bits(value as u64, pos as u64, len as u64, 64, true);
    assert((bits as i64) as u64 == bits) by (bit_vector);
    bits as i64
}

/// Field insertion into a 32-bit operand; only the low byte of `pos` and of `len` counts.
pub fn bfi_b32(a: u32, b: u32, pos: u32, len: u32) -> (r: u32)
    ensures
        r as nat == bfi_spec(a as nat, b as nat, (pos % 256) as nat, (len % 256) as nat, 32),
{
    let d = bfi_bits(a as u64, b as u64, (pos % 256) as u64, (len % 256) as u64, 32);
    proof {
        lemma2_to64();
    }
    d as u32
}

/// Field insertion into a 64-bit operand; `pos` and `len` count in full.
pub fn bfi_b64(a: u64, b: u64, pos: u32, len: u32) -> (r: u64)
    ensures
        r as nat == bfi_spec(a as nat, b as nat, pos as nat, len as nat, 64),
{
    bfi_bits(a, b, pos as u64, len as u64, 64)
}

/// Bit reversal of a 32-bit operand.
pub fn brev_b32(x: u32) -> (r: u32)
    ensures
        r as nat == brev_spec(x as nat, 32),
{
    let d = brev_bits(x as u64, 32);
    proof {
        lemma2_to64();
    }
    d as u32
}

/// Reversing the bits of a `width`-bit value twice gives the value back.
pub proof fn lemma_brev_involution(x: nat, width: nat)
    requires
        1 <= width,
        x < pow2(width),
    ensures
        brev_spec(brev_spec(x, width), width) == x,
{
    let f = |j: nat| bit(x, (width - 1 - j) as nat);
    let y = brev_spec(x, width);
    let g = |j: nat| bit(y, (width - 1 - j) as nat);
    let z = brev_spec(y, width);
    assert forall|j: nat| j < width implies #[trigger] bit(z, j) == bit(x, j) by {
        lemma_from_bits_bit(g, 0, width, j);
        lemma_from_bits_bit(f, 0, width, (width - 1 - j) as nat);
    }
    lemma_from_bits_bound(g, 0, width);
    lemma_bits_determine(z, x, width);
}

} // verus!
