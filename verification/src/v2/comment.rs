//! Comments on issues.

use crate::v2::pagination::Pagination;
use crate::v2::user::User;
use vstd::prelude::*;

verus! {

/// A comment on an issue.
#[derive(Debug)]
pub struct Comment {
    /// REST API link to comment
    pub self_link: String,
    /// ID of comment
    pub id: String,
    /// Author of comment
    pub author: Option<User>,
    /// Body of comment
    pub body: String,
    /// Author of last update to the comment
    pub update_author: Option<User>,
    /// Date created in format "2020-03-10T16:14:17.856+0000",
    pub created: String,
    /// Date last updated in format "2020-03-10T16:14:17.856+0000",
    pub updated: String,
}

/// One page of the comments on an issue.
#[derive(Debug)]
pub struct PaginatedComments {
    /// A list of comments
    pub comments: Vec<Comment>,
    /// Pagination
    pub pagination: Option<Pagination>,
}

} // verus!
