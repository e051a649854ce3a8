//! The resolutions of issues, and the request that fetches one.

use crate::client::{is_request_of, Client, Method, Request};
use vstd::prelude::*;

verus! {

/// A way in which an issue can be resolved.
#[derive(Debug)]
pub struct Resolution {
    /// REST API link to group
    pub self_link: String,
    /// ID of the resolution
    pub id: String,
    /// Description of the resolution
    pub description: String,
    /// Name of the resolution
    pub name: String,
}

impl Resolution {
    /// The request that fetches the resolution with the given id.
    pub fn from_id(c: &Client, id: &str) -> (request: Request)
        ensures
            is_request_of(request, *c, Method::Get, "api/2/resolution/"@ + id@, None),
    {
        let mut endpoint = String::from_str("api/2/resolution/");
        endpoint.append(id);
        c.get(endpoint.as_str())
    }
}

} // verus!
