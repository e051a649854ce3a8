//! Watchers of an issue.

use vstd::prelude::*;

verus! {

/// How many users watch an issue.
#[derive(Debug)]
pub struct Watches {
    /// REST API link to watchers
    pub self_link: String,
    /// Number of watchers
    pub watch_count: i64,
    /// Are there watchers on this issue?
    pub is_watching: bool,
}

} // verus!
