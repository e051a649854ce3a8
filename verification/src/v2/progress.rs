//! Progress on an issue, by the time estimated for it.

use vstd::prelude::*;

verus! {

/// How far an issue has come, in seconds spent of seconds estimated.
#[derive(Debug)]
pub struct Progress {
    /// Progress in seconds
    pub progress: i64,
    /// Total estimated time in seconds
    pub total: i64,
    /// Percentage of progress (progress / total)
    pub percent: i64,
}

} // verus!
