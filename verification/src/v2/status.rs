//! The statuses of issues, and the request that fetches one.

use crate::client::{is_request_of, Client, Method, Request};
use crate::v2::status_category::StatusCategory;
use vstd::prelude::*;

verus! {

/// A status that an issue can be in.
#[derive(Debug)]
pub struct Status {
    /// REST API link to the status
    pub self_link: String,
    /// Description of the status
    pub description: String,
    /// URL to icon of the status
    pub icon_url: String,
    /// Name of the status
    pub name: String,
    /// ID of the status
    pub id: String,
    /// Status category of the status
    pub status_category: Option<StatusCategory>,
}

impl Status {
    /// The request that fetches the status with the given id or name.
    pub fn from_id_or_name(c: &Client, id: &str) -> (request: Request)
        ensures
            is_request_of(request, *c, Method::Get, "api/2/status/"@ + id@, None),
    {
        let mut endpoint = String::from_str("api/2/status/");
        endpoint.append(id);
        c.get(endpoint.as_str())
    }
}

} // verus!
