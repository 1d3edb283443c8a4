//! Little-endian byte encoding of integers.

use vstd::prelude::*;
use vstd::arithmetic::div_mod::{lemma_div_denominator, lemma_fundamental_div_mod};
use vstd::arithmetic::mul::{lemma_mul_strictly_positive, lemma_mul_inequality};

verus! {

/// `256` raised to the power `n`.
pub open spec fn pow256(n: nat) -> nat
    decreases n,
{
    if n == 0 {
        1
    } else {
        256 * pow256((n - 1) as nat)
    }
}

/// The `w` little-endian bytes of `v`.
pub open spec fn le_bytes(v: nat, w: nat) -> Seq<u8> {
    Seq::new(w, |i: int| ((v / pow256(i as nat)) % 256) as u8)
}

/// The number that the little-endian bytes `s` encode.
pub open spec fn le_value(s: Seq<u8>) -> nat
    decreases s.len(),
{
    if s.len() == 0 {
        0
    } else {
        s[0] as nat + 256 * le_value(s.drop_first())
    }
}

pub proof fn lemma_pow256_positive(n: nat)
    ensures
        pow256(n) >= 1,
    decreases n,
{
    if n > 0 {
        lemma_pow256_positive((n - 1) as nat);
    }
}

pub proof fn lemma_le_value_bound(s: Seq<u8>)
    ensures
        le_value(s) < pow256(s.len()),
    decreases s.len(),
{
    if s.len() > 0 {
        lemma_le_value_bound(s.drop_first());
        let r = le_value(s.drop_first());
        assert(r + 1 <= pow256((s.len() - 1) as nat));
        assert(s[0] as nat + 256 * r < 256 * (r + 1)) by (nonlinear_arith)
            requires
                s[0] < 256,
        ;
        assert(256 * (r + 1) <= 256 * pow256((s.len() - 1) as nat)) by (nonlinear_arith)
            requires
                r + 1 <= pow256((s.len() - 1) as nat),
        ;
    }
}

/// Decoding the bytes of a value gives the value back.
pub proof fn lemma_le_round_trip(v: nat, w: nat)
    requires
        v < pow256(w),
    ensures
        le_value(le_bytes(v, w)) == v,
    decreases w,
{
    let s = le_bytes(v, w);
    if w == 0 {
        assert(v == 0);
    } else {
        let q = v / 256;
        let t = s.drop_first();
        assert forall|i: int| 0 <= i < w - 1 implies t[i] == le_bytes(q, (w - 1) as nat)[i] by {
            lemma_pow256_positive(i as nat);
            lemma_div_denominator(v as int, 256, pow256(i as nat) as int);
            assert(pow256((i + 1) as nat) == 256 * pow256(i as nat));
        }
        assert(t =~= le_bytes(q, (w - 1) as nat));
        assert(q < pow256((w - 1) as nat)) by {
            lemma_fundamental_div_mod(v as int, 256);
            if q >= pow256((w - 1) as nat) {
                lemma_mul_inequality(pow256((w - 1) as nat) as int, q as int, 256);
            }
        }
        lemma_le_round_trip(q, (w - 1) as nat);
        assert(pow256(0) == 1);
        assert(s[0] == ((v / pow256(0)) % 256) as u8);
        assert(v / 1 == v);
        assert(s[0] == (v % 256) as u8);
        lemma_fundamental_div_mod(v as int, 256);
    }
}

/// Appends the `w` little-endian bytes of `v` to `col`.
pub fn push_le(col: &mut Vec<u8>, v: u64, w: usize)
    requires
        w <= 8,
    ensures
        final(col)@ == old(col)@ + le_bytes(v as nat, w as nat),
{
    let ghost start = old(col)@;
    let mut x: u64 = v;
    let mut i: usize = 0;
    assert(pow256(0) == 1);
    assert(col@ =~= start + le_bytes(v as nat, 0));
    while i < w
        invariant
            i <= w,
            col@ == start + le_bytes(v as nat, i as nat),
            x as nat == v as nat / pow256(i as nat),
        decreases w - i,
    {
        proof {
            lemma_pow256_positive(i as nat);
            lemma_div_denominator(v as int, pow256(i as nat) as int, 256);
            assert(pow256((i + 1) as nat) == 256 * pow256(i as nat));
            assert(pow256(i as nat) * 256 == 256 * pow256(i as nat)) by (nonlinear_arith);
        }
        col.push((x % 256) as u8);
        x = x / 256;
        i = i + 1;
        assert(col@ =~= start + le_bytes(v as nat, i as nat));
    }
}

/// Reads the number held little-endian in `col[start..start + w]`.
pub fn read_le(col: &Vec<u8>, start: usize, w: usize) -> (r: u64)
    requires
        w <= 8,
        start + w <= col@.len(),
    ensures
        r as nat == le_value(col@.subrange(start as int, start + w)),
{
    let mut acc: u64 = 0;
    let mut i: usize = w;
    let n = col.len();
    assert(le_value(col@.subrange(start + w, start + w)) == 0);
    while i > 0
        invariant
            n == col@.len(),
            i <= w,
            w <= 8,
            start + w <= col@.len(),
            acc as nat == le_value(col@.subrange(start + i, start + w)),
        decreases i,
    {
        let ghost tail = col@.subrange(start + i, start + w);
        let ghost next = col@.subrange(start + i - 1, start + w);
        assert(next.drop_first() =~= tail);
        proof {
            lemma_le_value_bound(next);
            assert(pow256(next.len()) <= pow256(8)) by {
                lemma_pow256_mono(next.len(), 8);
            }
            lemma_pow256_eight();
        }
        acc = acc * 256 + col[start + i - 1] as u64;
        i = i - 1;
    }
    acc
}

pub proof fn lemma_pow256_eight()
    ensures
        pow256(1) == 0x100,
        pow256(2) == 0x1_0000,
        pow256(3) == 0x100_0000,
        pow256(4) == 0x1_0000_0000,
        pow256(8) == 0x1_0000_0000_0000_0000,
{
    reveal_with_fuel(pow256, 9);
}

pub proof fn lemma_pow256_mono(a: nat, b: nat)
    requires
        a <= b,
    ensures
        pow256(a) <= pow256(b),
    decreases b,
{
    if a < b {
        lemma_pow256_mono(a, (b - 1) as nat);
        lemma_pow256_positive((b - 1) as nat);
    }
}

} // verus!
