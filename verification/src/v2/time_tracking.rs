//! Time tracked on an issue.

use vstd::prelude::*;

verus! {

/// The time spent on an issue and the time estimated to remain.
#[derive(Debug)]
pub struct TimeTracking {
    /// Remaining time given the overall estimate in "x{m} y{h} z{s}" format
    /// for example: "2d 4h"
    pub remaining_estimate: String,
    /// Time spent on the issue in "x{m} y{h} z{s}" format for example: "2d
    /// 4h"
    pub time_spent: String,
    /// Remaining time given the overall estimate in seconds as integer for
    /// example: 24
    pub remaining_estimate_seconds: i64,
    /// Time spent on the issue in seconds as integer for example: 10
    pub time_spent_seconds: i64,
}

} // verus!
