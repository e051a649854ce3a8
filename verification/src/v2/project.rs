//! Projects, and the request that fetches one.

use crate::client::{is_request, Client, Method, Request};
use crate::options::{expand_entries, expand_query, QueryOptions};
use crate::query::{put_all, Query};
use crate::text::views;
use crate::v2::component::Component;
use crate::v2::issue_type::IssueType;
use crate::v2::user::User;
use crate::v2::version::Version;
use std::collections::BTreeMap;
use vstd::prelude::*;

verus! {

/// The parts of a project that the server leaves out unless asked.
#[derive(Debug)]
pub enum ProjectExpand {
    /// The description of the project.
    Description,
    /// The user who leads the project.
    Lead,
    /// The address of the project.
    Url,
    /// All keys that the project has had.
    ProjectKeys,
}

impl ProjectExpand {
    /// The text that stands for this value in a query.
    pub open spec fn text(&self) -> Seq<char> {
        match self {
            ProjectExpand::Description => "description"@,
            ProjectExpand::Lead => "lead"@,
            ProjectExpand::Url => "url"@,
            ProjectExpand::ProjectKeys => "projectKeys"@,
        }
    }
}

impl QueryOptions for ProjectExpand {
    /// The name of the part as the server knows it.
    fn to_string(&self) -> (out: String)
        ensures
            out@ == self.text(),
    {
        match self {
            ProjectExpand::Description => String::from_str("description"),
            ProjectExpand::Lead => String::from_str("lead"),
            ProjectExpand::Url => String::from_str("url"),
            ProjectExpand::ProjectKeys => String::from_str("projectKeys"),
        }
    }
}

/// A project.
#[derive(Debug)]
pub struct Project {
    /// REST API link to project
    pub self_link: String,
    /// ID of project
    pub id: String,
    /// Key of project
    pub key: String,
    /// Project description
    pub description: String,
    /// The project lead
    pub lead: Option<User>,
    /// Components inside the project
    pub components: Vec<Component>,
    /// Issue types connected to the project
    pub issue_types: Vec<IssueType>,
    /// Assignee type
    pub assignee_type: String,
    /// A list of versions inside the project
    pub versions: Vec<Version>,
    /// Name of the project
    pub name: String,
    /// A list of roles assigned to the project
    pub roles: BTreeMap<String, String>,
    /// A list of avatar urls associated with the project
    pub avatar_urls: BTreeMap<String, String>,
    /// Project type
    pub project_type_key: String,
    /// Is the project archived
    pub archived: bool,
}

/// The parts asked for: those given, or none.
pub open spec fn parts_or_none(expand_opts: Option<Vec<ProjectExpand>>) -> Seq<ProjectExpand> {
    match expand_opts {
        Some(parts) => parts@,
        None => Seq::empty(),
    }
}

impl Project {
    /// The request that fetches the project with the given key or id, with
    /// the parts named in `expand_opts`.
    pub fn from_key_or_id(c: &Client, key: &str, expand_opts: Option<Vec<ProjectExpand>>) -> (request:
        Request)
        ensures
            is_request(
                request,
                Method::Get,
                c.host@,
                "api/2/project/"@ + key@,
                put_all(c.query.entries(), expand_entries(texts(parts_or_none(expand_opts)))),
                c.credentials,
                c.headers.fields(),
                None,
            ),
    {
        let mut url = String::from_str("api/2/project/");
        url.append(key);
        let parts = match expand_opts {
            Some(parts) => parts,
            None => Vec::new(),
        };
        let query = expand_to_hashmap(parts);
        c.clone().add_query(query).get(url.as_str())
    }
}

/// The texts of a list of parts, in order.
pub open spec fn texts(parts: Seq<ProjectExpand>) -> Seq<Seq<char>> {
    parts.map_values(|part: ProjectExpand| part.text())
}

/// The query with the one entry `expand`, whose value is the names of
/// `e` separated by commas; for no part, the value is empty.
pub fn expand_to_hashmap(e: Vec<ProjectExpand>) -> (query: Query)
    ensures
        query.entries() == expand_entries(texts(e@)),
{
    let mut names: Vec<String> = Vec::new();
    let mut i: usize = 0;
    while i < e.len()
        invariant
            i <= e.len(),
            names.len() == i,
            views(names@) == texts(e@.take(i as int)),
        decreases e.len() - i,
    {
        let name = e[i].to_string();
        let ghost before = names@;
        let ghost text = name@;
        names.push(name);
        proof {
            let want = texts(e@.take(i as int + 1));
            assert forall|j: int| 0 <= j < want.len() implies views(names@)[j] == want[j] by {
                if j < i {
                    assert(views(before)[j] == texts(e@.take(i as int))[j]);
                    assert(names@[j] == before[j]);
                } else {
                    assert(names@[j]@ == text);
                }
            }
            assert(views(names@) =~= want);
        }
        i = i + 1;
    }
    proof {
        assert(e@.take(e.len() as int) == e@);
    }
    expand_query(&names)
}

} // verus!
