//! Permissions, and the requests that list them.

use crate::client::{is_request, is_request_of, Client, Method, Request};
use crate::options::QueryOptions;
use crate::query::{lemma_put_new, put_all, Pair, Query};
use std::collections::BTreeMap;
use vstd::prelude::*;

verus! {

/// What the permissions of the current user are asked about.
#[derive(Debug)]
pub enum MyPermissionKey {
    /// A project, by its key.
    ProjectKey,
    /// A project, by its id.
    ProjectId,
    /// An issue, by its key.
    IssueKey,
    /// An issue, by its id.
    IssueId,
}

impl MyPermissionKey {
    /// The text that stands for this value in a query.
    pub open spec fn text(&self) -> Seq<char> {
        match self {
            MyPermissionKey::IssueId => "issueId"@,
            MyPermissionKey::IssueKey => "issueKey"@,
            MyPermissionKey::ProjectId => "projectId"@,
            MyPermissionKey::ProjectKey => "projectKey"@,
        }
    }
}

impl QueryOptions for MyPermissionKey {
    /// The name of the query key.
    fn to_string(&self) -> (out: String)
        ensures
            out@ == self.text(),
    {
        match self {
            MyPermissionKey::IssueId => String::from_str("issueId"),
            MyPermissionKey::IssueKey => String::from_str("issueKey"),
            MyPermissionKey::ProjectId => String::from_str("projectId"),
            MyPermissionKey::ProjectKey => String::from_str("projectKey"),
        }
    }
}

/// A permission that the server knows.
#[derive(Debug)]
pub struct Permission {
    /// Internal representation of the permission
    pub key: String,
    /// Human readable name of the permission.
    pub name: String,
    /// Type of permission
    pub permission_type: String,
    /// Description of the permission
    pub description: String,
}

/// The permissions that the server knows, by key.
#[derive(Debug)]
pub struct PermissionCollection {
    /// Collection of permissions
    pub permissions: BTreeMap<String, Permission>,
}

/// A permission, with whether the current user has it.
#[derive(Debug)]
pub struct MyPermission {
    /// ID of the permission
    pub id: String,
    /// Internal representation of the permission
    pub key: String,
    /// Human readable name of the permission.
    pub name: String,
    /// Description of the permission
    pub description: String,
    /// Do you have the permission?
    pub have_permission: bool,
    /// Is the permission key deprecated?
    pub deprecated_key: bool,
}

/// The permissions of the current user, by key.
#[derive(Debug)]
pub struct MyPermissionCollection {
    /// Collection of permissions
    pub permissions: BTreeMap<String, MyPermission>,
}

/// The query entry that names what the permissions are asked about.
pub open spec fn subject_entry(key: MyPermissionKey, value: Seq<char>) -> Seq<Pair> {
    seq![(key.text(), value)]
}

impl MyPermission {
    /// The request that lists the permissions of the current user on the
    /// project or issue that `key` and `value` name; the pair goes into
    /// the query, over an entry of that key that the client may have.
    pub fn my_permissions_for_key(c: &Client, key: MyPermissionKey, value: &str) -> (request:
        Request)
        ensures
            is_request(
                request,
                Method::Get,
                c.host@,
                "api/2/mypermissions"@,
                put_all(c.query.entries(), subject_entry(key, value@)),
                c.credentials,
                c.headers.fields(),
                None,
            ),
    {
        let name = key.to_string();
        let mut query = Query::new();
        proof {
            lemma_put_new(Seq::empty(), name@, value@);
            assert(Seq::<Pair>::empty().push((name@, value@)) =~= subject_entry(key, value@));
        }
        query.insert(name, String::from_str(value));
        c.clone().add_query(query).get("api/2/mypermissions")
    }
}

impl Permission {
    /// The request that lists all permissions that the server knows.
    pub fn all_permissions(c: &Client) -> (request: Request)
        ensures
            is_request_of(request, *c, Method::Get, "api/2/permissions"@, None),
    {
        c.get("api/2/permissions")
    }
}

} // verus!
