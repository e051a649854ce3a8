//! The record of the changes made to an issue.

use crate::v2::history::History;
use vstd::prelude::*;

verus! {

/// The changes made to an issue.
#[derive(Debug)]
pub struct Changelog {
    /// A list of changes
    pub histories: Vec<History>,
}

impl Default for Changelog {
    /// No change.
    fn default() -> (log: Changelog)
        ensures
            log.histories@.len() == 0,
    {
        Changelog { histories: Vec::new() }
    }
}

} // verus!
