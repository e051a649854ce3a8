//! Issues. The fields of an issue vary widely from one server to the next:
//! the fields that every server has are named here, and everything else is
//! kept as JSON under the name it came with.

use crate::client::{is_request, Client, Method, Request};
use crate::options::{expand_entries, expand_query, Options, QueryOptions};
use crate::query::{lemma_put_all_new, lemma_put_new, put_all, Pair, Query};
use crate::text::{bool_text, bool_to_string, join, join_strings, views};
use crate::v2::attachment::Attachment;
use crate::v2::changelog::Changelog;
use crate::v2::comment::PaginatedComments;
use crate::v2::component::Component;
use crate::v2::issue_link::IssueLink;
use crate::v2::issue_type::IssueType;
use crate::v2::pagination::{page_entries, Pagination};
use crate::v2::priority::Priority;
use crate::v2::progress::Progress;
use crate::v2::project::Project;
use crate::v2::resolution::Resolution;
use crate::v2::status::Status;
use crate::v2::time_tracking::TimeTracking;
use crate::v2::user::User;
use crate::v2::version::Version;
use crate::v2::vote::Vote;
use crate::v2::watches::Watches;
use crate::v2::worklog::PaginatedWorklog;
use std::collections::BTreeMap;
use vstd::prelude::*;

verus! {

/// The parts of an issue that the server leaves out unless asked.
#[derive(Debug)]
pub enum IssueExpand {
    /// The fields as HTML.
    RenderedFields,
    /// The display name of each field.
    Names,
    /// The schema of each field.
    Schema,
    /// The transitions that the issue can make.
    Transitions,
    /// The operations that can be done on the issue.
    Operations,
    /// How each field can be edited.
    Editmeta,
    /// The changes made to the issue.
    Changelog,
    /// Every version of each field's representation.
    VersionedRepresentations,
}

impl IssueExpand {
    /// The text that stands for this value in a query.
    pub open spec fn text(&self) -> Seq<char> {
        match self {
            IssueExpand::RenderedFields => "renderedFields"@,
            IssueExpand::Names => "names"@,
            IssueExpand::Schema => "schema"@,
            IssueExpand::Transitions => "transitions"@,
            IssueExpand::Operations => "operations"@,
            IssueExpand::Editmeta => "editmeta"@,
            IssueExpand::Changelog => "changelog"@,
            IssueExpand::VersionedRepresentations => "versionedRepresentations"@,
        }
    }
}

impl QueryOptions for IssueExpand {
    /// The name of the part as the server knows it.
    fn to_string(&self) -> (out: String)
        ensures
            out@ == self.text(),
    {
        match self {
            IssueExpand::RenderedFields => String::from_str("renderedFields"),
            IssueExpand::Names => String::from_str("names"),
            IssueExpand::Schema => String::from_str("schema"),
            IssueExpand::Transitions => String::from_str("transitions"),
            IssueExpand::Operations => String::from_str("operations"),
            IssueExpand::Editmeta => String::from_str("editmeta"),
            IssueExpand::Changelog => String::from_str("changelog"),
            IssueExpand::VersionedRepresentations => String::from_str("versionedRepresentations"),
        }
    }
}

/// The fields of an issue to fetch: a list of field names, where a name
/// includes the field and a name with `-` in front leaves it out.
///
/// `*all` includes all fields, `*navigable` the navigable ones; `summary`
/// and `comment` together include just these two; `-comment` leaves out the
/// comments; `*all` and `-comment` together include everything but the
/// comments.
#[derive(Debug)]
pub struct IssueFieldOptions(pub Vec<String>);

impl Default for IssueFieldOptions {
    /// All fields: the one name `*all`.
    fn default() -> (options: IssueFieldOptions)
        ensures
            views(options.0@) == seq!["*all"@],
    {
        let mut names: Vec<String> = Vec::new();
        names.push(String::from_str("*all"));
        assert(views(names@) =~= seq!["*all"@]);
        IssueFieldOptions(names)
    }
}

impl IssueFieldOptions {
    /// The text that stands for this value in a query.
    pub open spec fn text(&self) -> Seq<char> {
        join(views(self.0@), seq![','])
    }
}

impl QueryOptions for IssueFieldOptions {
    /// The names, separated by commas.
    fn to_string(&self) -> (out: String)
        ensures
            out@ == self.text(),
    {
        proof {
            reveal_strlit(",");
            assert(","@ =~= seq![',']);
        }
        join_strings(&self.0, ",")
    }
}

/// The properties of an issue to fetch: a list of property names, where a
/// name includes the property and a name with `-` in front leaves it out.
#[derive(Debug)]
pub struct IssuePropertyOptions(pub Vec<String>);

impl Default for IssuePropertyOptions {
    /// No name.
    fn default() -> (options: IssuePropertyOptions)
        ensures
            options.0@.len() == 0,
    {
        IssuePropertyOptions(Vec::new())
    }
}

impl IssuePropertyOptions {
    /// The text that stands for this value in a query.
    pub open spec fn text(&self) -> Seq<char> {
        join(views(self.0@), seq![','])
    }
}

impl QueryOptions for IssuePropertyOptions {
    /// The names, separated by commas.
    fn to_string(&self) -> (out: String)
        ensures
            out@ == self.text(),
    {
        proof {
            reveal_strlit(",");
            assert(","@ =~= seq![',']);
        }
        join_strings(&self.0, ",")
    }
}

/// Whether fetching the issue counts as a view of it in the user's history.
#[derive(Debug)]
pub struct IssueUpdateHistory(pub bool);

impl Default for IssueUpdateHistory {
    /// Off.
    fn default() -> (options: IssueUpdateHistory)
        ensures
            !options.0,
    {
        IssueUpdateHistory(false)
    }
}

impl IssueUpdateHistory {
    /// The text that stands for this value in a query.
    pub open spec fn text(&self) -> Seq<char> {
        bool_text(self.0)
    }
}

impl QueryOptions for IssueUpdateHistory {
    /// `true` or `false`.
    fn to_string(&self) -> (out: String)
        ensures
            out@ == self.text(),
    {
        bool_to_string(self.0)
    }
}

/// The fields of an issue.
#[derive(Debug)]
pub struct IssueFields {
    /// The issue type
    pub issue_type: Option<IssueType>,
    /// Components belonging to the issue
    pub components: Vec<Component>,
    /// Time logged on the issue
    pub time_spent: Option<i64>,
    /// The estimate first logged on the issue
    pub time_original_estimate: Option<i64>,
    /// Description of the issue
    pub description: String,
    /// Project issue is part of
    pub project: Option<Project>,
    /// Fix versions assigned to the issue
    pub fix_versions: Vec<Version>,
    /// Aggregate time spent on the issue
    pub aggregate_time_spent: Option<i64>,
    /// Resolution
    pub resolution: Option<Resolution>,
    /// Time tracking information (time spent, overall estimate etc.)
    pub timetracking: Option<TimeTracking>,
    /// A list of attachments in the issue.
    pub attachment: Vec<Attachment>,
    /// Aggregated time estimate in seconds
    pub aggregate_time_estimate: Option<i64>,
    /// Date the issue was resolved (put into a resolution status) in the
    /// format: "2020-03-09T20:40:15.922+0000"
    pub resolution_date: Option<String>,
    /// Work ratio
    pub work_ratio: Option<i64>,
    /// Summary of the issue
    pub summary: String,
    /// Date the issue was last viewed in the format:
    /// "2020-03-09T20:40:15.922+0000"
    pub last_viewed: Option<String>,
    /// Watcher details (how many people are watching this issue etc.)
    pub watches: Option<Watches>,
    /// Creator of the issue
    pub creator: Option<User>,
    /// Subtasks underneath the issue
    pub subtasks: Vec<Issue>,
    /// Date the issue was created in format: "2020-03-08T14:49:58.599+0000"
    pub created: String,
    /// User who reported the issue
    pub reporter: Option<User>,
    /// Aggregated progress based on time estimation in the ticket
    pub aggregate_progress: Option<Progress>,
    /// Priority assigned to the issue
    pub priority: Option<Priority>,
    /// A list of labels assigned to the issue
    pub labels: Vec<String>,
    /// Environment description
    pub environment: Option<String>,
    /// Time estimate in seconds
    pub time_estimate: Option<i64>,
    /// The estimate first made, summed over subtasks, in seconds
    pub aggregate_time_original_estimate: Option<i64>,
    /// A list of versions attributed to the issue
    pub versions: Vec<Version>,
    /// Due date of the issue
    pub due_date: Option<String>,
    /// Progress on an issue
    pub progress: Option<Progress>,
    /// Paginated comments
    pub comment: Option<PaginatedComments>,
    /// Links to other issues.
    pub issue_links: Vec<IssueLink>,
    /// Votes on the issue.
    pub votes: Option<Vote>,
    /// A list of worklogs tied to the issue.
    pub worklog: Option<PaginatedWorklog>,
    /// Person assigned to the issue.
    pub assignee: Option<User>,
    /// Date time the issue was last updated in the format:
    /// "2020-03-10T16:27:20.772+0000"
    pub updated: String,
    /// Status of the issue
    pub status: Option<Status>,
    /// Flatten
    pub others: BTreeMap<String, serde_json::Value>,
}

/// An issue.
#[derive(Debug)]
pub struct Issue {
    /// A link to the issue
    pub self_link: String,
    /// The issue key in the format XXX-123
    pub key: String,
    /// The internal id of the ticket
    pub id: String,
    /// Fields inside the issue supported by this library, if you are looking
    /// for custom data or otherwise can't find what you need check the others
    /// key
    pub fields: IssueFields,
    /// Anything not covered will be flattened for access here
    pub others: BTreeMap<String, serde_json::Value>,
    /// A chronical of the changes made to the issue.
    pub changelog: Option<Changelog>,
}

/// The query entries that fetch an issue: the page, the fields, the
/// properties, the history flag and the parts to expand.
pub open spec fn issue_entries(
    start_at: i64,
    max_results: i64,
    fields: Seq<char>,
    properties: Seq<char>,
    update_history: bool,
    expand: Seq<Seq<char>>,
) -> Seq<Pair> {
    page_entries(start_at, max_results) + seq![
        ("fields"@, fields),
        ("properties"@, properties),
        ("updateHistory"@, bool_text(update_history)),
    ] + expand_entries(expand)
}

impl Issue {
    /// The request that fetches the issue with the given key, such as
    /// `XXX-123`. What is not given takes its default: no part to expand,
    /// all fields, no property, the history flag off, the first page of
    /// fifty.
    pub fn from_key(
        c: &Client,
        key: &str,
        expand_opts: Option<Vec<IssueExpand>>,
        field_opts: Option<IssueFieldOptions>,
        property_opts: Option<IssuePropertyOptions>,
        update_history: Option<IssueUpdateHistory>,
        page: Option<Pagination>,
    ) -> (request: Request)
        ensures
            is_request(
                request,
                Method::Get,
                c.host@,
                "api/2/issue/"@ + key@,
                put_all(
                    c.query.entries(),
                    issue_entries(
                        match page {
                            Some(p) => p.start_at,
                            None => 0,
                        },
                        match page {
                            Some(p) => p.max_results,
                            None => 50,
                        },
                        match field_opts {
                            Some(f) => f.text(),
                            None => "*all"@,
                        },
                        match property_opts {
                            Some(p) => p.text(),
                            None => Seq::empty(),
                        },
                        match update_history {
                            Some(u) => u.0,
                            None => false,
                        },
                        match expand_opts {
                            Some(e) => texts(e@),
                            None => Seq::empty(),
                        },
                    ),
                ),
                c.credentials,
                c.headers.fields(),
                None,
            ),
    {
        let page = match page {
            Some(p) => p,
            None => Pagination::default(),
        };
        let field_opts = match field_opts {
            Some(f) => f,
            None => IssueFieldOptions::default(),
        };
        let property_opts = match property_opts {
            Some(p) => p,
            None => IssuePropertyOptions::default(),
        };
        let update_history = match update_history {
            Some(u) => u,
            None => IssueUpdateHistory::default(),
        };
        let expand_opts = match expand_opts {
            Some(e) => e,
            None => Vec::new(),
        };
        let ghost parts = texts(expand_opts@);
        let mut query = page.to_query();
        let fields = field_opts.to_string();
        let properties = property_opts.to_string();
        let history = update_history.to_string();
        let expand = expand_to_hashmap(expand_opts);
        proof {
            reveal_strlit("startAt");
            reveal_strlit("maxResults");
            reveal_strlit("fields");
            reveal_strlit("properties");
            reveal_strlit("updateHistory");
            reveal_strlit("expand");
            let a = page_entries(page.start_at, page.max_results);
            assert(a[0].0.len() == 7 && a[1].0.len() == 10);
            assert("startAt"@.len() == 7 && "maxResults"@.len() == 10 && "fields"@.len() == 6);
            assert("properties"@.len() == 10 && "updateHistory"@.len() == 13);
            assert("expand"@.len() == 6);
            assert("maxResults"@[0] == 'm' && "properties"@[0] == 'p');
            assert("expand"@[0] == 'e' && "fields"@[0] == 'f');
            lemma_put_new(a, "fields"@, fields@);
            let b = a.push(("fields"@, fields@));
            assert(b[0] == a[0] && b[1] == a[1] && b[2].0 == "fields"@);
            lemma_put_new(b, "properties"@, properties@);
            let d = b.push(("properties"@, properties@));
            assert(d[0] == a[0] && d[1] == a[1] && d[2] == b[2] && d[3].0 == "properties"@);
            lemma_put_new(d, "updateHistory"@, history@);
            let e = d.push(("updateHistory"@, history@));
            assert(e[0] == a[0] && e[1] == a[1] && e[2] == b[2] && e[3] == d[3] && e[4].0
                == "updateHistory"@);
            lemma_put_all_new(e, expand_entries(parts));
            assert(e + expand_entries(parts) =~= issue_entries(
                page.start_at,
                page.max_results,
                fields@,
                properties@,
                update_history.0,
                parts,
            ));
            if views(field_opts.0@) == seq!["*all"@] {
                assert(field_opts.text() == "*all"@);
            }
            if property_opts.0@.len() == 0 {
                assert(views(property_opts.0@) =~= Seq::<Seq<char>>::empty());
            }
        }
        query.insert(String::from_str("fields"), fields);
        query.insert(String::from_str("properties"), properties);
        query.insert(String::from_str("updateHistory"), history);
        query.extend(&expand);
        let mut endpoint = String::from_str("api/2/issue/");
        endpoint.append(key);
        c.clone().add_query(query).get(endpoint.as_str())
    }
}

/// The texts of a list of parts, in order.
pub open spec fn texts(parts: Seq<IssueExpand>) -> Seq<Seq<char>> {
    parts.map_values(|part: IssueExpand| part.text())
}

/// The query with the one entry `expand`, whose value is the names of
/// `e` separated by commas; for no part, the value is empty.
pub fn expand_to_hashmap(e: Vec<IssueExpand>) -> (query: Query)
    ensures
        query.entries() == expand_entries(texts(e@)),
{
    let mut names: Vec<String> = Vec::new();
    let mut i: usize = 0;
    while i < e.len()
        invariant
            i <= e.len(),
            names.len() == i,
            views(names@) == texts(e@.take(i as int)),
        decreases e.len() - i,
    {
        let name = e[i].to_string();
        let ghost before = names@;
        let ghost text = name@;
        names.push(name);
        proof {
            let want = texts(e@.take(i as int + 1));
            assert forall|j: int| 0 <= j < want.len() implies views(names@)[j] == want[j] by {
                if j < i {
                    assert(views(before)[j] == texts(e@.take(i as int))[j]);
                    assert(names@[j] == before[j]);
                } else {
                    assert(names@[j]@ == text);
                }
            }
            assert(views(names@) =~= want);
        }
        i = i + 1;
    }
    proof {
        assert(e@.take(e.len() as int) == e@);
    }
    expand_query(&names)
}

} // verus!
