//! Users, and the requests that find and fetch them.

use crate::client::{is_request, Client, Method, Request};
use crate::options::{expand_entries, expand_query, Options};
use crate::query::{lemma_put_all_new, lemma_put_new, put_all, Pair, Query};
use crate::text::{bool_text, bool_to_string, views};
use crate::v2::item::Item;
use crate::v2::pagination::{page_entries, Pagination};
use std::collections::BTreeMap;
use vstd::prelude::*;

verus! {

/// The parts of a user that the server leaves out unless asked.
#[derive(Debug)]
pub enum UserExpand {
    /// The groups that the user belongs to.
    Groups,
    /// The application roles that the user has.
    ApplicationRoles,
}

impl UserExpand {
    /// The name of the part, as text.
    pub open spec fn name(&self) -> Seq<char> {
        match self {
            UserExpand::Groups => "groups"@,
            UserExpand::ApplicationRoles => "applicationRoles"@,
        }
    }

    /// The name of the part as the server knows it.
    pub fn to_string(&self) -> (name: &str)
        ensures
            name@ == self.name(),
    {
        match self {
            UserExpand::Groups => "groups",
            UserExpand::ApplicationRoles => "applicationRoles",
        }
    }
}

/// Which users a search shall find.
#[derive(Debug)]
pub struct UserOptions {
    /// Include inactive users in requests.
    include_inactive: bool,
    /// Include active users in requests.
    include_active: bool,
}

/// The query entries that say which users a search shall find.
pub open spec fn user_entries(include_inactive: bool, include_active: bool) -> Seq<Pair> {
    seq![
        ("includeInactive"@, bool_text(include_inactive)),
        ("includeActive"@, bool_text(include_active)),
    ]
}

impl UserOptions {
    /// Whether inactive users are included.
    pub closed spec fn include_inactive(&self) -> bool {
        self.include_inactive
    }

    /// Whether active users are included.
    pub closed spec fn include_active(&self) -> bool {
        self.include_active
    }

    /// Options that include the active users, the inactive users, both or
    /// neither.
    pub fn new(include_active: bool, include_inactive: bool) -> (options: UserOptions)
        ensures
            options.include_active() == include_active,
            options.include_inactive() == include_inactive,
    {
        UserOptions { include_active, include_inactive }
    }
}

impl Default for UserOptions {
    /// The active users only.
    fn default() -> (options: UserOptions)
        ensures
            options.include_active(),
            !options.include_inactive(),
    {
        UserOptions { include_active: true, include_inactive: false }
    }
}

impl Options for UserOptions {
    /// `includeInactive` and `includeActive`, in that order.
    open spec fn contribution(&self) -> Seq<Pair> {
        user_entries(self.include_inactive(), self.include_active())
    }

    /// `includeInactive` and `includeActive`, in that order.
    fn to_query(&self) -> (query: Query) {
        let mut query = Query::new();
        proof {
            reveal_strlit("includeInactive");
            reveal_strlit("includeActive");
            let first = seq![("includeInactive"@, bool_text(self.include_inactive))];
            lemma_put_new(Seq::empty(), "includeInactive"@, bool_text(self.include_inactive));
            assert(Seq::<Pair>::empty().push(("includeInactive"@, bool_text(self.include_inactive)))
                =~= first);
            assert(first[0].0.len() == 15);
            lemma_put_new(first, "includeActive"@, bool_text(self.include_active));
            assert(first.push(("includeActive"@, bool_text(self.include_active))) =~= user_entries(
                self.include_inactive,
                self.include_active,
            ));
        }
        query.insert(String::from_str("includeInactive"), bool_to_string(self.include_inactive));
        query.insert(String::from_str("includeActive"), bool_to_string(self.include_active));
        query
    }
}

/// A user.
#[derive(Debug)]
pub struct User {
    /// Returns true if the user is active in Jira
    pub active: bool,
    /// Returns avatar urls for the user
    pub avatar_urls: BTreeMap<String, String>,
    /// Returns the display name of the user
    pub display_name: String,
    /// The email address associated with the account
    pub email_address: String,
    /// The id key associated with the user
    pub key: String,
    /// The username of the user
    pub name: String,
    /// A link to the user object
    pub self_link: String,
    /// The timezone set for the user account
    pub timezone: String,
    /// List of groups the user belongs to
    pub groups: Option<Item>,
    /// List of application roles the user has
    pub application_roles: Option<Item>,
}

/// The names of a list of parts, in order.
pub open spec fn names(parts: Seq<UserExpand>) -> Seq<Seq<char>> {
    parts.map_values(|part: UserExpand| part.name())
}

/// The query entries of a search for users whose name matches `search`.
pub open spec fn search_entries(
    include_inactive: bool,
    include_active: bool,
    start_at: i64,
    max_results: i64,
    search: Seq<char>,
) -> Seq<Pair> {
    user_entries(include_inactive, include_active) + page_entries(start_at, max_results) + seq![
        ("username"@, search),
    ]
}

/// The query entries that name one user by `key` and ask for `parts`.
pub open spec fn lookup_entries(key: Seq<char>, name: Seq<char>, parts: Seq<UserExpand>) -> Seq<
    Pair,
> {
    seq![(key, name)] + expand_entries(names(parts))
}

impl User {
    /// The request that searches for users whose name matches `search`.
    /// Without options, the active users are searched; without a page, the
    /// first fifty matches are asked for.
    pub fn search(
        c: &Client,
        search: String,
        opts: Option<UserOptions>,
        page: Option<Pagination>,
    ) -> (request: Request)
        ensures
            is_request(
                request,
                Method::Get,
                c.host@,
                "api/2/user/search"@,
                put_all(
                    c.query.entries(),
                    search_entries(
                        match opts {
                            Some(o) => o.include_inactive(),
                            None => false,
                        },
                        match opts {
                            Some(o) => o.include_active(),
                            None => true,
                        },
                        match page {
                            Some(p) => p.start_at,
                            None => 0,
                        },
                        match page {
                            Some(p) => p.max_results,
                            None => 50,
                        },
                        search@,
                    ),
                ),
                c.credentials,
                c.headers.fields(),
                None,
            ),
    {
        let opts = match opts {
            Some(o) => o,
            None => UserOptions::default(),
        };
        let page = match page {
            Some(p) => p,
            None => Pagination::default(),
        };
        let mut query = opts.to_query();
        let paging = page.to_query();
        proof {
            reveal_strlit("includeInactive");
            reveal_strlit("includeActive");
            reveal_strlit("startAt");
            reveal_strlit("maxResults");
            reveal_strlit("username");
            let a = user_entries(opts.include_inactive, opts.include_active);
            let b = page_entries(page.start_at, page.max_results);
            assert(a[0].0.len() == 15 && a[1].0.len() == 13);
            assert(b[0].0.len() == 7 && b[1].0.len() == 10);
            lemma_put_all_new(a, b);
            lemma_put_new(a + b, "username"@, search@);
            assert((a + b).push(("username"@, search@)) =~= search_entries(
                opts.include_inactive,
                opts.include_active,
                page.start_at,
                page.max_results,
                search@,
            ));
        }
        query.extend(&paging);
        query.insert(String::from_str("username"), search);
        c.clone().add_query(query).get("api/2/user/search")
    }

    /// The request that fetches the user with the given user name, with
    /// the parts named in `expand`.
    pub fn from_username(c: &Client, username: String, expand: Vec<UserExpand>) -> (request:
        Request)
        ensures
            is_request(
                request,
                Method::Get,
                c.host@,
                "api/2/user"@,
                put_all(c.query.entries(), lookup_entries("username"@, username@, expand@)),
                c.credentials,
                c.headers.fields(),
                None,
            ),
    {
        let mut query = Query::new();
        proof {
            reveal_strlit("username");
            reveal_strlit("expand");
            lemma_lookup("username"@, username@, expand@);
        }
        query.insert(String::from_str("username"), username);
        query.extend(&expand_to_hashmap(expand));
        c.clone().add_query(query).get("api/2/user")
    }

    /// The request that fetches the user with the given key, with the
    /// parts named in `expand`.
    pub fn from_key(c: &Client, key: String, expand: Vec<UserExpand>) -> (request: Request)
        ensures
            is_request(
                request,
                Method::Get,
                c.host@,
                "api/2/user"@,
                put_all(c.query.entries(), lookup_entries("key"@, key@, expand@)),
                c.credentials,
                c.headers.fields(),
                None,
            ),
    {
        let mut query = Query::new();
        proof {
            reveal_strlit("key");
            reveal_strlit("expand");
            lemma_lookup("key"@, key@, expand@);
        }
        query.insert(String::from_str("key"), key);
        query.extend(&expand_to_hashmap(expand));
        c.clone().add_query(query).get("api/2/user")
    }

    /// The JSON list of the groups that the user belongs to, where the
    /// server sent one.
    pub fn groups(&self) -> (items: Option<&serde_json::Value>)
        ensures
            match self.groups {
                Some(list) => items == Some(&list.items),
                None => items is None,
            },
    {
        match &self.groups {
            Some(list) => Some(&list.items),
            None => None,
        }
    }

    /// The JSON list of the application roles that the user has, where the
    /// server sent one.
    pub fn application_roles(&self) -> (items: Option<&serde_json::Value>)
        ensures
            match self.application_roles {
                Some(list) => items == Some(&list.items),
                None => items is None,
            },
    {
        match &self.application_roles {
            Some(list) => Some(&list.items),
            None => None,
        }
    }
}

proof fn lemma_lookup(key: Seq<char>, name: Seq<char>, parts: Seq<UserExpand>)
    requires
        key != "expand"@,
    ensures
        put_all(seq![(key, name)], expand_entries(names(parts))) == lookup_entries(
            key,
            name,
            parts,
        ),
        crate::query::put(Seq::empty(), key, name) == seq![(key, name)],
{
    let first = seq![(key, name)];
    lemma_put_all_new(first, expand_entries(names(parts)));
    lemma_put_new(Seq::empty(), key, name);
    assert(Seq::<Pair>::empty().push((key, name)) =~= first);
}

/// The query with the one entry `expand`, whose value is the names of
/// `e` separated by commas; for no part, the value is empty.
pub fn expand_to_hashmap(e: Vec<UserExpand>) -> (query: Query)
    ensures
        query.entries() == expand_entries(names(e@)),
{
    let mut parts: Vec<String> = Vec::new();
    let mut i: usize = 0;
    while i < e.len()
        invariant
            i <= e.len(),
            parts.len() == i,
            views(parts@) == names(e@.take(i as int)),
        decreases e.len() - i,
    {
        let part = String::from_str(e[i].to_string());
        let ghost before = parts@;
        let ghost text = part@;
        parts.push(part);
        proof {
            let want = names(e@.take(i as int + 1));
            assert forall|j: int| 0 <= j < want.len() implies views(parts@)[j] == want[j] by {
                if j < i {
                    assert(views(before)[j] == names(e@.take(i as int))[j]);
                    assert(parts@[j] == before[j]);
                } else {
                    assert(parts@[j]@ == text);
                }
            }
            assert(views(parts@) =~= want);
        }
        i = i + 1;
    }
    proof {
        assert(e@.take(e.len() as int) == e@);
    }
    expand_query(&parts)
}

} // verus!
