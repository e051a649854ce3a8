//! Attachments of issues, and the request that fetches one.

use crate::client::{is_request_of, Client, Method, Request};
use crate::v2::user::User;
use std::collections::BTreeMap;
use vstd::prelude::*;

verus! {

/// A file attached to an issue.
#[derive(Debug)]
pub struct Attachment {
    /// REST API link to attachment
    pub self_link: String,
    /// Filename of the attachment, e.g x.jpg
    pub filename: String,
    /// User that uploaded the attachment
    pub author: Option<User>,
    /// Date created in the following format: "2020-03-09T20:01:55.575+0000"
    pub created: String,
    /// Size of the attachment in bytes
    pub size: i64,
    /// MIME type of the attachment e.g. "image/jpeg"
    pub mime_type: String,
    /// An arbitrary list of properties
    pub properties: BTreeMap<String, serde_json::Value>,
    /// Direct link to the content
    pub content: String,
    /// Direct link to content thumbnail
    pub thumbnail: String,
}

impl Attachment {
    /// The request that fetches the attachment with the given id.
    pub fn from_id(c: &Client, id: &str) -> (request: Request)
        ensures
            is_request_of(request, *c, Method::Get, "api/2/attachment/"@ + id@, None),
    {
        let mut endpoint = String::from_str("api/2/attachment/");
        endpoint.append(id);
        c.get(endpoint.as_str())
    }
}

} // verus!
