//! The priorities of issues, and the request that fetches one.

use crate::client::{is_request_of, Client, Method, Request};
use vstd::prelude::*;

verus! {

/// A priority that an issue can have.
#[derive(Debug)]
pub struct Priority {
    /// REST API link to the priority
    pub self_link: String,
    /// Status colour for the priority
    pub status_colour: String,
    /// Priority description
    pub description: String,
    /// URL to icon of the status
    pub icon_url: String,
    /// Name of the status
    pub name: String,
    /// ID of the status
    pub id: String,
}

impl Priority {
    /// The request that fetches the priority with the given id.
    pub fn from_id(c: &Client, id: &str) -> (request: Request)
        ensures
            is_request_of(request, *c, Method::Get, "api/2/priority/"@ + id@, None),
    {
        let mut endpoint = String::from_str("api/2/priority/");
        endpoint.append(id);
        c.get(endpoint.as_str())
    }
}

} // verus!
