//! Application roles, and the requests that fetch and change them.

use crate::client::{is_request, is_request_of, Client, Method, Request};
use crate::headers::lower;
use crate::query::put;
use vstd::prelude::*;

verus! {

/// What goes with a change to application roles.
#[derive(Debug)]
pub struct ApplicationRoleOptions {
    /// The hash of the version to change. The server rejects the change
    /// if it is sent and is not the hash of what the server holds.
    if_match: String,
}

impl ApplicationRoleOptions {
    /// The version hash, as text.
    pub closed spec fn if_match(&self) -> Seq<char> {
        self.if_match@
    }

    /// Options that send `if_match` as the version hash.
    pub fn new(if_match: String) -> (options: ApplicationRoleOptions)
        ensures
            options.if_match() == if_match@,
    {
        ApplicationRoleOptions { if_match }
    }
}

/// An application role.
#[derive(Debug)]
pub struct ApplicationRole {
    /// Identifier of the application role
    pub key: String,
    /// Name of the application role
    pub name: String,
    /// List of groups associated with the role
    pub groups: Vec<String>,
    /// List of default groups for the role
    pub default_groups: Vec<String>,
    /// Selected by default
    pub selected_by_default: bool,
    /// Defined
    pub defined: bool,
    /// Number of seats
    pub number_of_seats: usize,
    /// Remaining seats
    pub remaining_seats: usize,
    /// User count
    pub user_count: usize,
    /// User count description
    pub user_count_description: String,
    /// Has unlimited seats
    pub has_unlimited_seats: bool,
    /// Platform
    pub platform: bool,
}

/// The header fields of a change: the client's, with `if-match` set where
/// options are given.
pub open spec fn change_headers(client: Client, options: Option<ApplicationRoleOptions>) -> Seq<
    crate::query::Pair,
> {
    match options {
        Some(o) => put(client.headers.fields(), "if-match"@, o.if_match()),
        None => client.headers.fields(),
    }
}

proof fn lemma_if_match_name()
    ensures
        lower("If-Match"@) == "if-match"@,
{
    reveal_strlit("If-Match");
    reveal_strlit("if-match");
    assert(lower("If-Match"@) =~= "if-match"@);
}

impl ApplicationRole {
    /// The request that fetches the role with the given key.
    pub fn from_key(c: &Client, key: &str) -> (request: Request)
        ensures
            is_request_of(request, *c, Method::Get, "api/2/applicationrole/"@ + key@, None),
    {
        let mut endpoint = String::from_str("api/2/applicationrole/");
        endpoint.append(key);
        c.get(endpoint.as_str())
    }

    /// The request that fetches all roles.
    pub fn all(c: &Client) -> (request: Request)
        ensures
            is_request_of(request, *c, Method::Get, "api/2/applicationrole"@, None),
    {
        c.get("api/2/applicationrole")
    }

    /// The request that changes several roles at once; `body` is the JSON
    /// text of the list of roles. With options, the version hash goes along
    /// in the `if-match` header.
    pub fn update_bulk(c: &Client, body: Vec<u8>, o: Option<ApplicationRoleOptions>) -> (request:
        Request)
        ensures
            is_request(
                request,
                Method::Put,
                c.host@,
                "api/2/applicationrole"@,
                c.query.entries(),
                c.credentials,
                change_headers(*c, o),
                Some(body),
            ),
    {
        let mut c = c.clone();
        if let Some(o) = o {
            proof {
                lemma_if_match_name();
            }
            c.add_header("If-Match", o.if_match);
        }
        c.put("api/2/applicationrole", body)
    }

    /// The request that changes this role; `body` is the JSON text of the
    /// role. Only some fields can be changed this way; the server passes
    /// over the others. With options, the version hash goes along in the
    /// `if-match` header.
    pub fn update(&self, c: &Client, o: Option<ApplicationRoleOptions>, body: Vec<u8>) -> (request:
        Request)
        ensures
            is_request(
                request,
                Method::Put,
                c.host@,
                "api/2/applicationrole/"@ + self.key@,
                c.query.entries(),
                c.credentials,
                change_headers(*c, o),
                Some(body),
            ),
    {
        let mut c = c.clone();
        let mut endpoint = String::from_str("api/2/applicationrole/");
        endpoint.append(self.key.as_str());
        if let Some(o) = o {
            proof {
                lemma_if_match_name();
            }
            c.add_header("If-Match", o.if_match);
        }
        c.put(endpoint.as_str(), body)
    }
}

} // verus!
