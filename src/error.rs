//! Errors that stop a run before any transfer starts.

use vstd::prelude::*;

verus! {

/// A configuration that cannot be run.
#[derive(Clone, Copy, Debug, PartialEq, Eq, Structural)]
pub enum ConfigError {
    /// Explicit outputs were given, but not one for each URL.
    OutputCountMismatch { outputs: usize, urls: usize },
    /// A concurrency limit of zero would never admit a transfer.
    ZeroJobs,
}

} // verus!
