//! The host side of a test and the errors a test reports.

use vstd::prelude::*;
use crate::scalar::OnDevice;

verus! {

/// Why a test failed.
#[derive(Debug)]
pub enum TestError {
    /// The device program did not compile or load.
    CompilationFail { message: String },
    /// A combination of modifiers that must be refused compiled anyway.
    CompilationSuccess { name: String },
    /// The program ran but a result differed from the host's; the texts describe the first
    /// mismatch, the counters the whole run.
    ResultMismatch {
        input: String,
        output: String,
        expected: String,
        total_cases: usize,
        passed_cases: usize,
    },
    /// The loaded program has no entry point named `run`.
    MissingRunFunction,
}

/// The host side of a test: what the device must produce for an input.
pub trait TestCommon {
    type Input: OnDevice;

    type Output: OnDevice;

    /// The host's result for `input`.
    spec fn spec_expected(&self, input: Self::Input) -> Self::Output;

    /// Whether `output` is an acceptable device result for `input`.
    spec fn spec_accepts(&self, input: Self::Input, output: Self::Output) -> bool;

    /// `Ok` when the device's `output` is acceptable, else the host's result.
    fn host_verify(&self, input: Self::Input, output: Self::Output) -> (r: Result<(), Self::Output>)
        ensures
            r is Ok <==> self.spec_accepts(input, output),
            !(r is Ok) ==> r == Err::<(), Self::Output>(self.spec_expected(input)),
    ;
}

/// A test over the whole domain `0 ..= max_value()`, each index mapped to an input.
pub trait RangeTest: TestCommon {
    spec fn spec_max_value(&self) -> u32;

    spec fn spec_generate(&self, index: u32) -> Self::Input;

    fn max_value(&self) -> (r: u32)
        ensures
            r == self.spec_max_value(),
    ;

    fn generate(&self, index: u32) -> (r: Self::Input)
        ensures
            r == self.spec_generate(index),
    ;
}

/// What a probe of a modifier combination that must not compile says about the whole
/// group: failing to compile or to find its entry point is the expected outcome, while
/// running (with or without mismatches) makes the group fail under the probe's name.
pub fn invalid_probe_failure(name: String, result: &Result<(), TestError>) -> (r: Option<TestError>)
    ensures
        r is Some <==> (result is Ok || result matches Err(TestError::ResultMismatch { .. })
            || result matches Err(TestError::CompilationSuccess { .. })),
        r matches Some(TestError::CompilationSuccess { name: n }) ==> n == name,
        r is Some ==> r matches Some(TestError::CompilationSuccess { .. }),
{
    match result {
        Err(TestError::CompilationFail { .. }) | Err(TestError::MissingRunFunction) => None,
        _ => Some(TestError::CompilationSuccess { name }),
    }
}

} // verus!
