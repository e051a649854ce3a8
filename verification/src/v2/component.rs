//! Components of projects, and the request that fetches one.

use crate::client::{is_request_of, Client, Method, Request};
use crate::v2::user::User;
use vstd::prelude::*;

verus! {

/// A component of a project.
#[derive(Debug)]
pub struct Component {
    /// REST API link to component
    pub self_link: String,
    /// ID of the component
    pub id: String,
    /// Name of the component
    pub name: String,
    /// Description of the component
    pub description: String,
    /// User that is the lead of the component
    pub lead: Option<User>,
    /// Assignee type
    pub assignee_type: String,
    /// User that is assigned to the component
    pub assignee: Option<User>,
    /// Real assignee type
    pub real_assignee_type: String,
    /// User that is assigned to the component
    pub real_assignee: Option<User>,
    /// Is the assignee type valid
    pub is_assignee_type_valid: bool,
    /// Project key the component is assigned to
    pub project: String,
    /// The id of the project the component is assigned to
    pub project_id: usize,
}

impl Component {
    /// The request that fetches the component with the given id.
    pub fn from_id(c: &Client, id: &str) -> (request: Request)
        ensures
            is_request_of(request, *c, Method::Get, "api/2/component/"@ + id@, None),
    {
        let mut endpoint = String::from_str("api/2/component/");
        endpoint.append(id);
        c.get(endpoint.as_str())
    }
}

} // verus!
