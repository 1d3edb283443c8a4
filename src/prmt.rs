//! The byte permutation instruction.

use vstd::prelude::*;
use vstd::arithmetic::power2::{pow2, lemma2_to64};
use crate::arith::byte_of;
use crate::bytes::{pow256, lemma_pow256_eight};

verus! {

/// Byte selection modes of the permute instruction.
#[derive(Clone, Copy, PartialEq, Eq, Debug, Structural)]
pub enum PrmtMode {
    Generic,
    F4e,
    B4e,
    Rc8,
    Ecl,
    Ecr,
    Rc16,
}

impl PrmtMode {
    pub open spec fn spec_str(self) -> Seq<char> {
        match self {
            PrmtMode::Generic => ""@,
            PrmtMode::F4e => ".f4e"@,
            PrmtMode::B4e => ".b4e"@,
            PrmtMode::Rc8 => ".rc8"@,
            PrmtMode::Ecl => ".ecl"@,
            PrmtMode::Ecr => ".ecr"@,
            PrmtMode::Rc16 => ".rc16"@,
        }
    }

    /// The mode's modifier in device program text.
    pub fn as_str(self) -> (r: &'static str)
        ensures
            r@ == self.spec_str(),
    {
        match self {
            PrmtMode::Generic => "",
            PrmtMode::F4e => ".f4e",
            PrmtMode::B4e => ".b4e",
            PrmtMode::Rc8 => ".rc8",
            PrmtMode::Ecl => ".ecl",
            PrmtMode::Ecr => ".ecr",
            PrmtMode::Rc16 => ".rc16",
        }
    }
}

/// Byte `k` of the eight-byte source `b:a`.
pub open spec fn src_byte(a: u32, b: u32, k: int) -> int {
    if k < 4 {
        byte_of(a, k as nat)
    } else {
        byte_of(b, (k - 4) as nat)
    }
}

/// Nibble `i` of the selector.
pub open spec fn nibble(c: u16, i: nat) -> int {
    (c as int / pow2(4 * i) as int) % 16
}

/// The source byte that a non-generic mode places in result byte `i`, for selector `sel`.
pub open spec fn prmt_index(mode: PrmtMode, sel: int, i: int) -> int {
    match mode {
        PrmtMode::F4e => i + sel,
        PrmtMode::B4e => (sel - i + 8) % 8,
        PrmtMode::Rc8 => sel,
        PrmtMode::Ecl => if i > sel {
            i
        } else {
            sel
        },
        PrmtMode::Ecr => if i < sel {
            i
        } else {
            sel
        },
        PrmtMode::Rc16 => (sel % 2) * 2 + i % 2,
        PrmtMode::Generic => 0,
    }
}

/// Result byte `i` of a permutation.
pub open spec fn prmt_byte(mode: PrmtMode, a: u32, b: u32, c: u16, i: int) -> int {
    match mode {
        PrmtMode::Generic => {
            let n = nibble(c, i as nat);
            let s = src_byte(a, b, n % 8);
            if n >= 8 {
                if s >= 128 {
                    255
                } else {
                    0
                }
            } else {
                s
            }
        },
        _ => src_byte(a, b, prmt_index(mode, c as int % 4, i)),
    }
}

pub open spec fn prmt_spec(mode: PrmtMode, a: u32, b: u32, c: u16) -> int {
    prmt_byte(mode, a, b, c, 0) + 0x100 * prmt_byte(mode, a, b, c, 1) + 0x1_0000 * prmt_byte(
        mode,
        a,
        b,
        c,
        2,
    ) + 0x100_0000 * prmt_byte(mode, a, b, c, 3)
}

/// The eight source bytes, those of `a` first.
fn source_bytes(a: u32, b: u32) -> (r: [u8; 8])
    ensures
        forall|k: int| 0 <= k < 8 ==> #[trigger] r[k] as int == src_byte(a, b, k),
{
    proof {
        lemma_pow256_eight();
        assert(pow256(0) == 1);
    }
    let r: [u8; 8] = [
        (a % 0x100) as u8,
        ((a / 0x100) % 0x100) as u8,
        ((a / 0x1_0000) % 0x100) as u8,
        ((a / 0x100_0000) % 0x100) as u8,
        (b % 0x100) as u8,
        ((b / 0x100) % 0x100) as u8,
        ((b / 0x1_0000) % 0x100) as u8,
        ((b / 0x100_0000) % 0x100) as u8,
    ];
    assert(r[0] as int == src_byte(a, b, 0));
    assert(r[1] as int == src_byte(a, b, 1));
    assert(r[2] as int == src_byte(a, b, 2));
    assert(r[3] as int == src_byte(a, b, 3));
    assert(r[4] as int == src_byte(a, b, 4));
    assert(r[5] as int == src_byte(a, b, 5));
    assert(r[6] as int == src_byte(a, b, 6));
    assert(r[7] as int == src_byte(a, b, 7));
    r
}

/// Assembles four bytes, the first being the least significant.
fn assemble(b0: u8, b1: u8, b2: u8, b3: u8) -> (r: u32)
    ensures
        r as int == b0 + 0x100 * b1 + 0x1_0000 * b2 + 0x100_0000 * b3,
{
    b0 as u32 + 0x100 * b1 as u32 + 0x1_0000 * b2 as u32 + 0x100_0000 * b3 as u32
}

/// One result byte of the generic mode, for the selector nibble `n`.
fn generic_byte(src: &[u8; 8], n: u16) -> (r: u8)
    requires
        n < 16,
    ensures
        r as int == if n >= 8 {
            if src[(n % 8) as int] >= 128 {
                255int
            } else {
                0int
            }
        } else {
            src[n as int] as int
        },
{
    let index = (n % 8) as usize;
    let s = src[index];
    if n >= 8 {
        if s >= 128 {
            0xff
        } else {
            0
        }
    } else {
        s
    }
}

/// The source byte for result byte `i` in a table-driven mode: each mode has a table of
/// four source bytes, most significant result byte first, for each selector value.
fn table_index(mode: PrmtMode, sel: usize, i: usize) -> (r: usize)
    requires
        mode != PrmtMode::Generic,
        mode != PrmtMode::Rc8,
        sel < 4,
        i < 4,
    ensures
        r as int == prmt_index(mode, sel as int, i as int),
        r < 8,
{
    let indices: [usize; 4] = match mode {
        PrmtMode::F4e => match sel {
            0 => [3, 2, 1, 0],
            1 => [4, 3, 2, 1],
            2 => [5, 4, 3, 2],
            _ => [6, 5, 4, 3],
        },
        PrmtMode::B4e => match sel {
            0 => [5, 6, 7, 0],
            1 => [6, 7, 0, 1],
            2 => [7, 0, 1, 2],
            _ => [0, 1, 2, 3],
        },
        PrmtMode::Ecl => match sel {
            0 => [3, 2, 1, 0],
            1 => [3, 2, 1, 1],
            2 => [3, 2, 2, 2],
            _ => [3, 3, 3, 3],
        },
        PrmtMode::Ecr => match sel {
            0 => [0, 0, 0, 0],
            1 => [1, 1, 1, 0],
            2 => [2, 2, 1, 0],
            _ => [3, 2, 1, 0],
        },
        _ => match sel {
            0 => [1, 0, 1, 0],
            1 => [3, 2, 3, 2],
            2 => [1, 0, 1, 0],
            _ => [3, 2, 3, 2],
        },
    };
    indices[3 - i]
}

/// Result byte `i` of the permutation.
fn result_byte(mode: PrmtMode, src: &[u8; 8], a: u32, b: u32, c: u16, i: usize) -> (r: u8)
    requires
        i < 4,
        forall|k: int| 0 <= k < 8 ==> #[trigger] src[k] as int == src_byte(a, b, k),
    ensures
        r as int == prmt_byte(mode, a, b, c, i as int),
{
    let sel = (c % 4) as usize;
    match mode {
        PrmtMode::Generic => {
            let shift: u16 = if i == 0 {
                1
            } else if i == 1 {
                0x10
            } else if i == 2 {
                0x100
            } else {
                0x1000
            };
            proof {
                lemma2_to64();
                assert(shift as nat == pow2(4 * (i as nat)));
            }
            let n = (c / shift) % 16;
            generic_byte(src, n)
        },
        PrmtMode::Rc8 => src[sel],
        _ => src[table_index(mode, sel, i)],
    }
}

/// The permute instruction: builds a 32-bit result from bytes of `b:a` chosen by `c`.
pub fn host_prmt(mode: PrmtMode, a: u32, b: u32, c: u16) -> (r: u32)
    ensures
        r as int == prmt_spec(mode, a, b, c),
{
    let src = source_bytes(a, b);
    let r0 = result_byte(mode, &src, a, b, c, 0);
    let r1 = result_byte(mode, &src, a, b, c, 1);
    let r2 = result_byte(mode, &src, a, b, c, 2);
    let r3 = result_byte(mode, &src, a, b, c, 3);
    assemble(r0, r1, r2, r3)
}

} // verus!
