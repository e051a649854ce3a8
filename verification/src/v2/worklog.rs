//! Work logged on issues, and the request that fetches entries by id.

use crate::client::{is_request_of, Client, Method, Request};
use crate::errors::Error;
use crate::json::{integer_list, integers_to_json};
use crate::v2::pagination::Pagination;
use crate::v2::user::User;
use vstd::prelude::*;
use vstd::utf8::encode_utf8;

verus! {

/// An entry of work logged on an issue.
#[derive(Debug)]
pub struct Worklog {
    /// REST API link to the worklog entry
    pub self_link: String,
    /// Author of the worklog entry
    pub author: Option<User>,
    /// Author of the last update to the worklog entry
    pub update_author: Option<User>,
    /// Comment given for the worklog
    pub comment: String,
    /// Date the worklog was created in format: "2020-03-08T16:40:18.010+0000"
    pub created: String,
    /// Date the worklog was updated in format: "2020-03-08T16:40:18.010+0000"
    pub updated: String,
    /// Date the worklog was started in format: "2020-03-08T16:40:18.010+0000"
    pub started: Option<String>,
    /// Time spent on the issue associated with this worklog in format: "2d
    /// 4h"
    pub time_spent: Option<String>,
    /// Time spent in seconds on the issue associated with this worklog
    pub time_spent_seconds: Option<i64>,
    /// ID of this worklog
    pub id: String,
    /// ID of the associated issue
    pub issue_id: String,
}

/// One page of the work logged on an issue.
#[derive(Debug)]
pub struct PaginatedWorklog {
    /// A list of worklogs
    pub worklogs: Vec<Worklog>,
    /// Pagination fields
    pub pagination: Pagination,
}

/// The JSON text that asks for the worklogs with the given ids: an object
/// whose one member `ids` is the list of the ids.
pub open spec fn ids_document(ids: Seq<i64>) -> Seq<char> {
    "{\"ids\":"@ + integer_list(ids) + "}"@
}

impl Worklog {
    /// The request that fetches the worklogs with the given ids: it posts
    /// the ids as a JSON document. Always `Ok`.
    pub fn from_ids(c: &Client, ids: Vec<i64>) -> (planned: Result<Request, Error>)
        ensures
            planned matches Ok(request) && is_request_of(
                request,
                *c,
                Method::Post,
                "api/2/worklog/list"@,
                request.body,
            ) && request.body is Some && request.body->0@ == encode_utf8(ids_document(ids@)),
    {
        Worklog::list(c, integers_to_json(&ids))
    }

    /// The request that fetches the worklogs whose ids are written, as a
    /// JSON list, in `list`; where writing the list has failed, that
    /// failure as a serialization error.
    pub fn list(c: &Client, list: Result<String, String>) -> (planned: Result<Request, Error>)
        ensures
            match list {
                Ok(text) => planned matches Ok(request) && is_request_of(
                    request,
                    *c,
                    Method::Post,
                    "api/2/worklog/list"@,
                    request.body,
                ) && request.body is Some && request.body->0@ == encode_utf8(
                    "{\"ids\":"@ + text@ + "}"@,
                ),
                Err(cause) => planned == Err::<Request, Error>(Error::Serde(cause)),
            },
    {
        match list {
            Ok(text) => {
                let mut document = String::from_str("{\"ids\":");
                document.append(text.as_str());
                document.append("}");
                let body = document.as_str().as_bytes_vec();
                Ok(c.post("api/2/worklog/list", body))
            },
            Err(cause) => Err(Error::Serde(cause)),
        }
    }
}

} // verus!
