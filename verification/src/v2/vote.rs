//! Votes on an issue.

use crate::v2::user::User;
use vstd::prelude::*;

verus! {

/// The votes cast for an issue.
#[derive(Debug)]
pub struct Vote {
    /// Number of items in the list
    pub self_link: String,
    /// Number of votes for an issue
    pub votes: i64,
    /// Have people voted
    pub has_voted: bool,
    /// Generic list of items
    pub voters: Vec<User>,
}

} // verus!
