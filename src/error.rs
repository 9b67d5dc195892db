//! Failures of an overlay invocation.
use vstd::prelude::*;

verus! {

/// Why an invocation stopped.
#[derive(Debug)]
pub enum AppError {
    /// A window-manager call failed or answered with an error.
    Transport(String),
    /// No output is active, so the overlay cannot be sized.
    NoActiveOutput,
    /// A required environment variable is absent.
    EnvironmentMissing(String),
    /// A reply did not have the expected shape.
    Decode(String),
}

} // verus!
