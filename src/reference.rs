//! Checks of device results against references that the host computes in floating point.

use vstd::prelude::*;
use crate::common::{flush_f32, flush_to_zero_f32, f32_is_nan, f32_mag, is_nan_f32, Rounding};
use crate::floatbits::{approx_div_accepts, approx_div_expected, is_approx_equal,
    is_float_equal, same_f32, saturate_unit_f32, saturate_unit_spec, ulp_distance,
};
use crate::scalar::F32;
use crate::transcendental::{check_special, Transcendental};

verus! {

/// How a device result compares with a reference value that the host computed in floating
/// point: the same pattern, both NaN, or, where `zeros_match`, both zeros of either sign.
pub open spec fn matches_reference(reference: u32, output: u32, zeros_match: bool) -> bool {
    same_f32(reference, output) || (zeros_match && f32_mag(reference) == 0 && f32_mag(output) == 0)
}

fn matches_exec(reference: u32, output: u32, zeros_match: bool) -> (r: bool)
    ensures
        r == matches_reference(reference, output, zeros_match),
{
    (is_nan_f32(reference) && is_nan_f32(output)) || reference == output || (zeros_match
        && reference % 0x8000_0000 == 0 && output % 0x8000_0000 == 0)
}

/// The result of a rounded arithmetic instruction once the host has rounded the exact
/// value: flushed when `ftz` is set, then saturated to `[0.0, 1.0]` when `sat` is set.
pub open spec fn finish_spec(rounded: u32, ftz: bool, sat: bool) -> u32 {
    if sat {
        saturate_unit_spec(flush_f32(rounded, ftz))
    } else {
        flush_f32(rounded, ftz)
    }
}

pub fn finish(rounded: u32, ftz: bool, sat: bool) -> (r: u32)
    ensures
        r == finish_spec(rounded, ftz, sat),
{
    let mut v = rounded;
    flush_to_zero_f32(&mut v, ftz);
    if sat {
        saturate_unit_f32(v)
    } else {
        v
    }
}

/// Rounded single-precision addition; results of zero match whatever their sign.
pub struct AddF32 {
    pub rnd: Rounding,
    pub ftz: bool,
    pub sat: bool,
}

impl AddF32 {
    pub fn new(rnd: Rounding, ftz: bool, sat: bool) -> (r: Self)
        ensures
            r.rnd == rnd && r.ftz == ftz && r.sat == sat,
    {
        AddF32 { rnd, ftz, sat }
    }

    /// Checks `output` against the host's sum rounded under `rnd` (`rounded`).
    pub fn verify(&self, rounded: u32, output: F32) -> (r: Result<(), F32>)
        ensures
            r is Ok <==> matches_reference(finish_spec(rounded, self.ftz, self.sat), output.0, true),
            !(r is Ok) ==> r == Err::<(), F32>(F32(finish_spec(rounded, self.ftz, self.sat))),
    {
        let expected = finish(rounded, self.ftz, self.sat);
        if matches_exec(expected, output.0, true) {
            Ok(())
        } else {
            Err(F32(expected))
        }
    }
}

/// Rounded single-precision subtraction, checked bit for bit.
pub struct SubF32 {
    pub rnd: Rounding,
    pub ftz: bool,
    pub sat: bool,
}

impl SubF32 {
    pub fn new(rnd: Rounding, ftz: bool, sat: bool) -> (r: Self)
        ensures
            r.rnd == rnd && r.ftz == ftz && r.sat == sat,
    {
        SubF32 { rnd, ftz, sat }
    }

    /// Checks `output` against the host's difference rounded under `rnd` (`rounded`).
    pub fn verify(&self, rounded: u32, output: F32) -> (r: Result<(), F32>)
        ensures
            r is Ok <==> matches_reference(finish_spec(rounded, self.ftz, self.sat), output.0, false),
            !(r is Ok) ==> r == Err::<(), F32>(F32(finish_spec(rounded, self.ftz, self.sat))),
    {
        let expected = finish(rounded, self.ftz, self.sat);
        if matches_exec(expected, output.0, false) {
            Ok(())
        } else {
            Err(F32(expected))
        }
    }
}

/// Rounded single-precision multiplication, checked bit for bit. Under round-to-nearest the
/// host flushes the exact product before rounding, so the rounded value is only saturated.
pub struct MulF32 {
    pub rnd: Rounding,
    pub ftz: bool,
    pub sat: bool,
}

impl MulF32 {
    pub fn new(rnd: Rounding, ftz: bool, sat: bool) -> (r: Self)
        ensures
            r.rnd == rnd && r.ftz == ftz && r.sat == sat,
    {
        MulF32 { rnd, ftz, sat }
    }

    pub open spec fn spec_expected(&self, rounded: u32) -> u32 {
        finish_spec(rounded, self.ftz && self.rnd != Rounding::Rn, self.sat)
    }

    /// Checks `output` against the host's product rounded under `rnd` (`rounded`).
    pub fn verify(&self, rounded: u32, output: F32) -> (r: Result<(), F32>)
        ensures
            r is Ok <==> matches_reference(self.spec_expected(rounded), output.0, false),
            !(r is Ok) ==> r == Err::<(), F32>(F32(self.spec_expected(rounded))),
    {
        let expected = finish(rounded, self.ftz && self.rnd != Rounding::Rn, self.sat);
        if matches_exec(expected, output.0, false) {
            Ok(())
        } else {
            Err(F32(expected))
        }
    }
}

/// Rounded fused multiply-add: one step of error is allowed, and zeros match whatever
/// their sign.
pub struct FmaF32 {
    pub rnd: Rounding,
    pub ftz: bool,
    pub sat: bool,
}

impl FmaF32 {
    pub fn new(rnd: Rounding, ftz: bool, sat: bool) -> (r: Self)
        ensures
            r.rnd == rnd && r.ftz == ftz && r.sat == sat,
    {
        FmaF32 { rnd, ftz, sat }
    }

    /// Checks `output` against the host's fused result rounded under `rnd` (`rounded`).
    pub fn verify(&self, rounded: u32, output: F32) -> (r: Result<(), F32>)
        ensures
            r is Ok <==> (ulp_distance(finish_spec(rounded, self.ftz, self.sat), output.0) <= 1
                || matches_reference(finish_spec(rounded, self.ftz, self.sat), output.0, true)),
            !(r is Ok) ==> r == Err::<(), F32>(F32(finish_spec(rounded, self.ftz, self.sat))),
    {
        let expected = finish(rounded, self.ftz, self.sat);
        let near = if expected >= output.0 {
            expected - output.0 <= 1
        } else {
            output.0 - expected <= 1
        };
        if near || matches_exec(expected, output.0, true) {
            Ok(())
        } else {
            Err(F32(expected))
        }
    }
}

/// The approximate base-2 exponential: exact on special inputs, otherwise within two steps
/// of the host's value.
pub struct Ex2 {
    pub ftz: bool,
}

impl Ex2 {
    pub fn new(ftz: bool) -> (r: Self)
        ensures
            r.ftz == ftz,
    {
        Ex2 { ftz }
    }

    /// Checks `output` for `input`; `reference` is the host's value, used only off the
    /// special inputs.
    pub fn verify(&self, input: F32, output: F32, reference: u32) -> (r: Result<(), F32>)
        ensures
            Transcendental::Ex2.spec_special(input.0) matches Some(e) ==> r == if same_f32(e, output.0) {
                Ok::<(), F32>(())
            } else {
                Err(F32(e))
            },
            Transcendental::Ex2.spec_special(input.0) is None ==> (r is Ok <==> (f32_is_nan(reference)
                && f32_is_nan(output.0)) || ulp_distance(reference, output.0) <= 2),
            Transcendental::Ex2.spec_special(input.0) is None && !(r is Ok) ==> r == Err::<(), F32>(F32(reference)),
    {
        match check_special(Transcendental::Ex2, input.0, output.0, false) {
            Some(Ok(())) => Ok(()),
            Some(Err(e)) => Err(F32(e)),
            None => match is_float_equal(reference, output.0, 2) {
                Ok(()) => Ok(()),
                Err(e) => Err(F32(e)),
            },
        }
    }
}

/// The reciprocal: approximate (exact on special inputs after flushing, otherwise within one
/// step of the host's value) or rounded under `rnd` and checked bit for bit.
pub struct Rcp {
    pub approx: bool,
    pub rnd: Rounding,
    pub ftz: bool,
}

impl Rcp {
    /// Checks `output` for `input`; `reference` is the host's reciprocal, already rounded and
    /// flushed, used off the special inputs of the approximate form.
    pub fn verify(&self, input: F32, output: F32, reference: u32) -> (r: Result<(), F32>)
        ensures
            !self.approx ==> (r is Ok <==> same_f32(reference, output.0)),
            self.approx ==> (Transcendental::Rcp.spec_special(flush_f32(input.0, self.ftz)) is None
                ==> (r is Ok <==> (f32_is_nan(reference) && f32_is_nan(output.0)) || ulp_distance(
                reference,
                output.0,
            ) <= 1)),
            self.approx ==> (Transcendental::Rcp.spec_special(flush_f32(input.0, self.ftz)) matches Some(e)
                ==> (r is Ok <==> same_f32(flush_f32(e, self.ftz), output.0))),
            !(r is Ok) ==> r == Err::<(), F32>(F32(
                if self.approx {
                    match Transcendental::Rcp.spec_special(flush_f32(input.0, self.ftz)) {
                        Some(e) => flush_f32(e, self.ftz),
                        None => reference,
                    }
                } else {
                    reference
                },
            )),
    {
        if !self.approx {
            return if matches_exec(reference, output.0, false) {
                Ok(())
            } else {
                Err(F32(reference))
            };
        }
        match check_special(Transcendental::Rcp, input.0, output.0, self.ftz) {
            Some(Ok(())) => Ok(()),
            Some(Err(e)) => Err(F32(e)),
            None => match is_float_equal(reference, output.0, 1) {
                Ok(()) => Ok(()),
                Err(e) => Err(F32(e)),
            },
        }
    }
}

/// The approximate hyperbolic tangent: exact on special inputs; elsewhere the host checks a
/// relative tolerance.
pub struct Tanh {}

impl Tanh {
    /// The verdict on a special input, `None` elsewhere.
    pub fn verify_special(&self, input: F32, output: F32) -> (r: Option<Result<(), F32>>)
        ensures
            r is None <==> Transcendental::Tanh.spec_special(input.0) is None,
            Transcendental::Tanh.spec_special(input.0) matches Some(e) ==> r == Some(
                if same_f32(e, output.0) {
                    Ok::<(), F32>(())
                } else {
                    Err(F32(e))
                },
            ),
    {
        match check_special(Transcendental::Tanh, input.0, output.0, false) {
            None => None,
            Some(Ok(())) => Some(Ok(())),
            Some(Err(e)) => Some(Err(F32(e))),
        }
    }
}

/// The square root: approximate (exact on special inputs after flushing; elsewhere the host
/// checks a relative tolerance) or rounded under `rnd` and checked bit for bit.
pub struct Sqrt {
    pub approx: bool,
    pub rnd: Rounding,
    pub ftz: bool,
}

impl Sqrt {
    /// The verdict on a special input of the approximate form, `None` elsewhere.
    pub fn verify_special(&self, input: F32, output: F32) -> (r: Option<Result<(), F32>>)
        ensures
            r is None <==> Transcendental::Sqrt.spec_special(flush_f32(input.0, self.ftz)) is None,
            Transcendental::Sqrt.spec_special(flush_f32(input.0, self.ftz)) matches Some(e) ==> r
                == Some(
                if same_f32(flush_f32(e, self.ftz), output.0) {
                    Ok::<(), F32>(())
                } else {
                    Err(F32(flush_f32(e, self.ftz)))
                },
            ),
    {
        match check_special(Transcendental::Sqrt, input.0, output.0, self.ftz) {
            None => None,
            Some(Ok(())) => Some(Ok(())),
            Some(Err(e)) => Some(Err(F32(e))),
        }
    }

    /// The check of the rounded form against the host's root rounded under `rnd`, flushed
    /// when `ftz` is set.
    pub fn verify_rounded(&self, rounded: u32, output: F32) -> (r: Result<(), F32>)
        ensures
            r is Ok <==> same_f32(flush_f32(rounded, self.ftz), output.0),
            !(r is Ok) ==> r == Err::<(), F32>(F32(flush_f32(rounded, self.ftz))),
    {
        let mut expected = rounded;
        flush_to_zero_f32(&mut expected, self.ftz);
        if matches_exec(expected, output.0, false) {
            Ok(())
        } else {
            Err(F32(expected))
        }
    }
}

/// The forms of single-precision division.
#[derive(Clone, Copy, PartialEq, Eq, Debug, Structural)]
pub enum DivVariant {
    /// Approximate: see `approx_div_accepts`.
    Approx,
    /// Full range: within two steps of the reference.
    Full,
    /// Rounded under the given rounding: exactly the reference.
    Rnd(Rounding),
}

/// Single-precision division, checked against the host's quotient.
pub struct DivF32 {
    pub variant: DivVariant,
    pub ftz: bool,
}

impl DivF32 {
    pub fn new(variant: DivVariant, ftz: bool) -> (r: Self)
        ensures
            r.variant == variant && r.ftz == ftz,
    {
        DivF32 { variant, ftz }
    }

    /// Checks `output` for operands `a` and `b` (already flushed when `ftz` is set) against
    /// `reference`, the host's quotient narrowed to single precision.
    pub fn verify(&self, a: u32, b: u32, output: F32, reference: u32) -> (r: Result<(), F32>)
        ensures
            self.variant == DivVariant::Approx ==> (r is Ok <==> approx_div_accepts(a, b, reference, output.0))
                && (!(r is Ok) ==> r == Err::<(), F32>(F32(approx_div_expected(a, b, reference)))),
            self.variant == DivVariant::Full ==> (r is Ok <==> (f32_is_nan(reference) && f32_is_nan(output.0))
                || ulp_distance(reference, output.0) <= 2) && (!(r is Ok) ==> r == Err::<(), F32>(F32(reference))),
            self.variant is Rnd ==> (r is Ok <==> (f32_is_nan(reference) && f32_is_nan(output.0)) || reference
                == output.0) && (!(r is Ok) ==> r == Err::<(), F32>(F32(reference))),
    {
        let verdict = match self.variant {
            DivVariant::Approx => is_approx_equal(a, b, reference, output.0),
            DivVariant::Full => is_float_equal(reference, output.0, 2),
            DivVariant::Rnd(_) => is_float_equal(reference, output.0, 0),
        };
        match verdict {
            Ok(()) => Ok(()),
            Err(e) => Err(F32(e)),
        }
    }
}

} // verus!
