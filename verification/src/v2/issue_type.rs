//! The types of issues, and the request that fetches one.

use crate::client::{is_request_of, Client, Method, Request};
use vstd::prelude::*;

verus! {

/// A type of issue.
#[derive(Debug)]
pub struct IssueType {
    /// The link to this issue type
    pub self_link: String,
    /// The ID of this issue type
    pub id: String,
    /// A description of the issue type
    pub description: String,
    /// URL to the issue type's icon
    pub icon_url: String,
    /// Name of the issue type
    pub name: String,
    /// Is the issue a subtask?
    pub subtask: bool,
    /// Avatar id
    pub avatar_id: i64,
}

impl IssueType {
    /// The request that fetches the issue type with the given id.
    pub fn from_id(c: &Client, id: &str) -> (request: Request)
        ensures
            is_request_of(request, *c, Method::Get, "api/2/issuetype/"@ + id@, None),
    {
        let mut endpoint = String::from_str("api/2/issuetype/");
        endpoint.append(id);
        c.get(endpoint.as_str())
    }
}

} // verus!
