//! Exact results of approximate transcendental instructions on special inputs.

use vstd::prelude::*;
use crate::common::{flush_f32, flush_to_zero_f32, f32_is_nan, f32_mag, f32_sign, is_nan_f32};
use crate::floatbits::{same_f32, F32_NAN, F32_ONE};

verus! {

/// Approximate transcendental instructions whose results on special inputs the instruction
/// set fixes exactly.
#[derive(Clone, Copy, PartialEq, Eq, Debug, Structural)]
pub enum Transcendental {
    Ex2,
    Lg2,
    Rsqrt,
    Rcp,
    Tanh,
    Cos,
    Sin,
    Sqrt,
}

pub const F32_INF: u32 = 0x7f80_0000;

pub const F32_NEG_INF: u32 = 0xff80_0000;

pub const F32_NEG_ZERO: u32 = 0x8000_0000;

pub const F32_NEG_ONE: u32 = 0xbf80_0000;

impl Transcendental {
    /// The exact result on a special input (an infinity, a zero, NaN, or a negative number
    /// where the function is undefined); `None` where a tolerance applies instead.
    pub open spec fn spec_special(self, x: u32) -> Option<u32> {
        let nan = f32_is_nan(x);
        let zero = f32_mag(x) == 0;
        let inf = f32_mag(x) == 0x7f80_0000;
        let neg = f32_sign(x);
        if nan {
            Some(F32_NAN)
        } else {
            match self {
                Transcendental::Ex2 => if inf {
                    Some(if neg { 0u32 } else { F32_INF })
                } else if zero {
                    Some(F32_ONE)
                } else {
                    None
                },
                Transcendental::Lg2 => if zero {
                    Some(F32_NEG_INF)
                } else if neg {
                    Some(F32_NAN)
                } else if inf {
                    Some(F32_INF)
                } else {
                    None
                },
                Transcendental::Rsqrt => if zero {
                    Some(if neg { F32_NEG_INF } else { F32_INF })
                } else if neg {
                    Some(F32_NAN)
                } else if inf {
                    Some(0u32)
                } else {
                    None
                },
                Transcendental::Rcp => if zero {
                    Some(if neg { F32_NEG_INF } else { F32_INF })
                } else if inf {
                    Some(if neg { F32_NEG_ZERO } else { 0u32 })
                } else {
                    None
                },
                Transcendental::Tanh => if zero {
                    Some(x)
                } else if inf {
                    Some(if neg { F32_NEG_ONE } else { F32_ONE })
                } else {
                    None
                },
                Transcendental::Cos => if inf {
                    Some(F32_NAN)
                } else if zero {
                    Some(F32_ONE)
                } else {
                    None
                },
                Transcendental::Sin => if inf {
                    Some(F32_NAN)
                } else if zero {
                    Some(x)
                } else {
                    None
                },
                Transcendental::Sqrt => if zero {
                    Some(x)
                } else if neg {
                    Some(F32_NAN)
                } else if inf {
                    Some(F32_INF)
                } else {
                    None
                },
            }
        }
    }

    pub fn special(self, x: u32) -> (r: Option<u32>)
        ensures
            r == self.spec_special(x),
    {
        let nan = is_nan_f32(x);
        let mag = x % 0x8000_0000;
        let zero = mag == 0;
        let inf = mag == 0x7f80_0000;
        let neg = x >= 0x8000_0000;
        if nan {
            return Some(F32_NAN);
        }
        match self {
            Transcendental::Ex2 => if inf {
                Some(if neg { 0 } else { F32_INF })
            } else if zero {
                Some(F32_ONE)
            } else {
                None
            },
            Transcendental::Lg2 => if zero {
                Some(F32_NEG_INF)
            } else if neg {
                Some(F32_NAN)
            } else if inf {
                Some(F32_INF)
            } else {
                None
            },
            Transcendental::Rsqrt => if zero {
                Some(if neg { F32_NEG_INF } else { F32_INF })
            } else if neg {
                Some(F32_NAN)
            } else if inf {
                Some(0)
            } else {
                None
            },
            Transcendental::Rcp => if zero {
                Some(if neg { F32_NEG_INF } else { F32_INF })
            } else if inf {
                Some(if neg { F32_NEG_ZERO } else { 0 })
            } else {
                None
            },
            Transcendental::Tanh => if zero {
                Some(x)
            } else if inf {
                Some(if neg { F32_NEG_ONE } else { F32_ONE })
            } else {
                None
            },
            Transcendental::Cos => if inf {
                Some(F32_NAN)
            } else if zero {
                Some(F32_ONE)
            } else {
                None
            },
            Transcendental::Sin => if inf {
                Some(F32_NAN)
            } else if zero {
                Some(x)
            } else {
                None
            },
            Transcendental::Sqrt => if zero {
                Some(x)
            } else if neg {
                Some(F32_NAN)
            } else if inf {
                Some(F32_INF)
            } else {
                None
            },
        }
    }
}

/// The check on a special input: the input is flushed first when `ftz` is set, and so is the
/// fixed result; the device must give the same pattern, or NaN where NaN is fixed. `None`
/// when the input is not special for `op`.
pub fn check_special(op: Transcendental, x: u32, output: u32, ftz: bool) -> (r: Option<Result<(), u32>>)
    ensures
        r is None <==> op.spec_special(flush_f32(x, ftz)) is None,
        match op.spec_special(flush_f32(x, ftz)) {
            Some(e) => r == Some(
                if same_f32(flush_f32(e, ftz), output) {
                    Ok::<(), u32>(())
                } else {
                    Err(flush_f32(e, ftz))
                },
            ),
            None => true,
        },
{
    let mut input = x;
    flush_to_zero_f32(&mut input, ftz);
    match op.special(input) {
        None => None,
        Some(e) => {
            let mut expected = e;
            flush_to_zero_f32(&mut expected, ftz);
            if (is_nan_f32(expected) && is_nan_f32(output)) || expected == output {
                Some(Ok(()))
            } else {
                Some(Err(expected))
            }
        },
    }
}

} // verus!
