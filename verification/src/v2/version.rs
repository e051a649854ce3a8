//! Versions of a project, and the requests that fetch, change and create
//! them.

use crate::client::{is_request_of, Client, Method, Request};
use vstd::prelude::*;

verus! {

/// A version of a project.
#[derive(Debug)]
pub struct Version {
    /// Internal id representation of the version
    pub id: String,
    /// A link to the JSON API version object
    pub self_link: String,
    /// The description of the version
    pub description: String,
    /// Name of the version
    pub name: String,
    /// Release date is the ACTUAL release date your software was released.
    /// You should only really set this field when the release is complete.
    pub release_date: String,
    /// User release date is the proposed date of release given on version
    /// creation. This field and release_date will hold the same value once a
    /// release is completed. Unless you are a victim of the following bug:
    /// https://jira.atlassian.com/browse/JRACLOUD-32389?_ga=2.109234573.942351204.1572973048-487013296.1572973048
    pub user_release_date: String,
    /// Returns true if version is archived
    pub archived: bool,
    /// Returns true if the version has been marked as released
    pub released: bool,
    /// Is release overdue
    pub overdue: bool,
    /// The id of the project this version belongs to
    pub project_id: i64,
}

impl Default for Version {
    /// The blank version: every text empty, every flag off, no project.
    fn default() -> (version: Version)
        ensures
            version.is_blank(),
    {
        Version {
            id: String::new(),
            self_link: String::new(),
            description: String::new(),
            name: String::new(),
            release_date: String::new(),
            user_release_date: String::new(),
            archived: false,
            released: false,
            overdue: false,
            project_id: 0,
        }
    }
}

impl Version {
    /// Every text is empty, every flag is off and the project is 0.
    pub open spec fn is_blank(&self) -> bool {
        &&& self.id@.len() == 0
        &&& self.self_link@.len() == 0
        &&& self.description@.len() == 0
        &&& self.name@.len() == 0
        &&& self.release_date@.len() == 0
        &&& self.user_release_date@.len() == 0
        &&& !self.archived
        &&& !self.released
        &&& !self.overdue
        &&& self.project_id == 0
    }

    /// A blank version.
    pub fn new() -> (version: Version)
        ensures
            version.is_blank(),
    {
        Version::default()
    }

    /// The request that fetches the version with the given id.
    pub fn from_id(c: &Client, id: &str) -> (request: Request)
        ensures
            is_request_of(request, *c, Method::Get, "api/2/version/"@ + id@, None),
    {
        let mut endpoint = String::from_str("api/2/version/");
        endpoint.append(id);
        c.get(endpoint.as_str())
    }

    /// The request that changes this version on the server; `body` is the
    /// JSON text of the version.
    pub fn update(&self, c: &Client, body: Vec<u8>) -> (request: Request)
        ensures
            is_request_of(request, *c, Method::Put, "api/v2/version/"@ + self.id@, Some(body)),
    {
        let mut endpoint = String::from_str("api/v2/version/");
        endpoint.append(self.id.as_str());
        c.put(endpoint.as_str(), body)
    }

    /// The request that creates a version; `body` is the JSON text of the
    /// version.
    pub fn create(c: &Client, body: Vec<u8>) -> (request: Request)
        ensures
            is_request_of(request, *c, Method::Post, "api/2/version"@, Some(body)),
    {
        c.post("api/2/version", body)
    }
}

} // verus!
