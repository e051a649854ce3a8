//! The kinds of links between issues, and the request that fetches one.

use crate::client::{is_request_of, Client, Method, Request};
use vstd::prelude::*;

verus! {

/// A kind of link between issues, with the name of each of its directions.
#[derive(Debug)]
pub struct IssueLinkType {
    /// The link to this issue link type
    pub self_link: String,
    /// The ID of this issue link type
    pub id: String,
    /// The name of the issue link type
    pub name: String,
    /// The inward description of this link type
    pub inward: String,
    /// The outward description of this link type
    pub outward: String,
}

impl IssueLinkType {
    /// The request that fetches the issue link type with the given id.
    pub fn from_id(c: &Client, id: &str) -> (request: Request)
        ensures
            is_request_of(request, *c, Method::Get, "api/2/issueLinkType/"@ + id@, None),
    {
        let mut endpoint = String::from_str("api/2/issueLinkType/");
        endpoint.append(id);
        c.get(endpoint.as_str())
    }
}

} // verus!
