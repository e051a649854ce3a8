//! A typed client for the REST interface of a Jira server.
//!
//! The crate holds everything about an exchange that can be decided ahead of
//! the wire and after it: how a request is assembled from a client's host,
//! credentials, default headers and default query, and what a completed
//! response amounts to. Sending the request and turning JSON text into typed
//! values is left to the caller's transport and codec.

pub mod client;
pub mod credentials;
pub mod errors;
pub mod headers;
pub mod json;
pub mod options;
pub mod query;
pub mod text;
pub mod v2;

pub use crate::client::{Client, Method, Reply, Request, Resp};
pub use crate::credentials::Credentials;
pub use crate::errors::{Error, Errors};
pub use crate::headers::Headers;
pub use crate::options::{Options, QueryOptions};
pub use crate::query::Query;

