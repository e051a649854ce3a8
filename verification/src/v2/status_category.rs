//! The categories of statuses, and the request that fetches one.

use crate::client::{is_request_of, Client, Method, Request};
use vstd::prelude::*;

verus! {

/// A category of statuses.
#[derive(Debug)]
pub struct StatusCategory {
    /// REST API link to the status category
    pub self_link: String,
    /// ID of the status category
    pub id: i64,
    /// Staus category key
    pub key: String,
    /// Name of the colour given to the status category
    pub colour_name: String,
    /// Name of the status category
    pub name: String,
}

impl StatusCategory {
    /// The request that fetches the status category with the given id or key.
    pub fn from_id_or_key(c: &Client, id: &str) -> (request: Request)
        ensures
            is_request_of(request, *c, Method::Get, "api/2/statuscategory/"@ + id@, None),
    {
        let mut endpoint = String::from_str("api/2/statuscategory/");
        endpoint.append(id);
        c.get(endpoint.as_str())
    }
}

} // verus!
