//! Links between issues, and the request that fetches one.

use crate::client::{is_request_of, Client, Method, Request};
use crate::v2::issue::Issue;
use crate::v2::issue_link_type::IssueLinkType;
use vstd::prelude::*;

verus! {

/// A link from one issue to another.
#[derive(Debug)]
pub struct IssueLink {
    /// The link to this issue link
    pub self_link: String,
    /// The ID of this issue link
    pub id: String,
    /// The issue link type this link represents (Blocked by, Related to etc.)
    pub issue_link_type: Option<IssueLinkType>,
    /// The outward issue connected to this link.
    pub outward_issue: Option<Issue>,
    /// The inward issue connected to this link.
    pub inward_issue: Option<Issue>,
}

impl IssueLink {
    /// The request that fetches the issue link with the given id.
    pub fn from_id(c: &Client, id: &str) -> (request: Request)
        ensures
            is_request_of(request, *c, Method::Get, "api/2/issueLink/"@ + id@, None),
    {
        let mut endpoint = String::from_str("api/2/issueLink/");
        endpoint.append(id);
        c.get(endpoint.as_str())
    }
}

} // verus!
