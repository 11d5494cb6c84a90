//! The outcome of one integration check, and the trait such checks implement.
use vstd::prelude::*;
use vstd::std_specs::convert::FromSpecImpl;

verus! {

/// `anyhow::Error`, carried through unchanged as the cause of a failed check.
#[verifier::external_type_specification]
#[verifier::external_body]
pub struct ExAnyhowError(anyhow::Error);

/// The outcome of one check.
pub enum TestResult {
    /// The check passed.
    Passed,
    /// The check could not run here and was skipped.
    Skip,
    /// The check failed, for the reason given.
    Failed(anyhow::Error),
}

impl<T> From<Result<T, anyhow::Error>> for TestResult {
    /// A passed check for `Ok`, a failed one with the error for `Err`.
    fn from(result: Result<T, anyhow::Error>) -> (r: TestResult) {
        match result {
            Ok(_) => TestResult::Passed,
            Err(err) => TestResult::Failed(err),
        }
    }
}

impl<T> FromSpecImpl<Result<T, anyhow::Error>> for TestResult {
    open spec fn obeys_from_spec() -> bool {
        true
    }

    open spec fn from_spec(v: Result<T, anyhow::Error>) -> TestResult {
        match v {
            Ok(_) => TestResult::Passed,
            Err(e) => TestResult::Failed(e),
        }
    }
}

/// A named check that can be run.
pub trait Testable {
    /// The check's name.
    fn get_name(&self) -> String;

    /// Whether the check can run in this environment; by default it can.
    fn can_run(&self) -> bool {
        true
    }

    /// Runs the check.
    fn run(&self) -> TestResult;
}

} // verus!
