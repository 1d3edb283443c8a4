//! Host-side reference models for conformance testing of a GPU instruction set.
//!
//! Device values are modelled by their bit patterns: integers as themselves and floats as
//! the patterns of `F16`, `F32`, `F64` and the two 8-bit formats. On top of them stand the
//! columnar device encoding (`scalar`), the rounding, comparison and flush-to-zero
//! semantics (`common`, `floatbits`, `cvt`), one oracle per instruction family (`arith`,
//! `bitfield`, `prmt`, `shift`, `transcendental`, `reference`, `testcase`), the program
//! text around an instruction body for the driver or the runtime compiler (`program`), and
//! the batch planning and bookkeeping of a device run (`batch`, `runner`, `test`).

use vstd::prelude::*;

pub mod arith;
pub mod batch;
pub mod bitfield;
pub mod bytes;
pub mod common;
pub mod cvt;
pub mod floatbits;
pub mod prmt;
pub mod program;
pub mod reference;
pub mod runner;
pub mod scalar;
pub mod shift;
pub mod test;
pub mod testcase;
pub mod transcendental;

verus! {

} // verus!
