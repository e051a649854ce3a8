//! Groups of users, and the request that lists the members of one.

use crate::client::{is_request, Client, Method, Request};
use crate::options::Options;
use crate::query::{lemma_put_all_new, lemma_put_new, put_all, Pair, Query};
use crate::text::{bool_text, bool_to_string};
use crate::v2::pagination::{page_entries, Pagination};
use crate::v2::user::User;
use vstd::prelude::*;

verus! {

/// Which members of a group are listed.
#[derive(Debug)]
pub struct GroupOptions {
    /// If true a get request will return inactive users in the list
    include_inactive_users: bool,
}

impl GroupOptions {
    /// Whether inactive users are listed too.
    pub closed spec fn include_inactive_users(&self) -> bool {
        self.include_inactive_users
    }
}

impl Default for GroupOptions {
    /// The active users only.
    fn default() -> (options: GroupOptions)
        ensures
            !options.include_inactive_users(),
    {
        GroupOptions { include_inactive_users: false }
    }
}

/// The query entry that says whether inactive users are listed.
pub open spec fn group_entries(include_inactive_users: bool) -> Seq<Pair> {
    seq![("includeInactiveUsers"@, bool_text(include_inactive_users))]
}

impl Options for GroupOptions {
    /// The one entry `includeInactiveUsers`.
    open spec fn contribution(&self) -> Seq<Pair> {
        group_entries(self.include_inactive_users())
    }

    /// The one entry `includeInactiveUsers`.
    fn to_query(&self) -> (query: Query) {
        let mut query = Query::new();
        proof {
            lemma_put_new(
                Seq::empty(),
                "includeInactiveUsers"@,
                bool_text(self.include_inactive_users),
            );
            assert(Seq::<Pair>::empty().push(
                ("includeInactiveUsers"@, bool_text(self.include_inactive_users)),
            ) =~= group_entries(self.include_inactive_users));
        }
        query.insert(
            String::from_str("includeInactiveUsers"),
            bool_to_string(self.include_inactive_users),
        );
        query
    }
}

/// One page of the members of a group.
#[derive(Debug)]
pub struct Group {
    /// REST API link to group
    pub self_link: String,
    /// Pagination values
    pub pagination: Pagination,
    /// List of users in group
    pub users: Vec<User>,
    /// Name of the group
    pub name: String,
}

/// The query entries that list the members of the group `name`.
pub open spec fn member_entries(
    include_inactive_users: bool,
    start_at: i64,
    max_results: i64,
    name: Seq<char>,
) -> Seq<Pair> {
    group_entries(include_inactive_users) + page_entries(
        start_at,
        max_results,
    ) + seq![("groupname"@, name)]
}

impl Group {
    /// The request that lists the members of the group with the given
    /// name, a page at a time. Without options, the active users are
    /// listed; without a page, the first fifty members are asked for.
    pub fn from_name(
        c: &Client,
        name: String,
        opts: Option<GroupOptions>,
        page: Option<Pagination>,
    ) -> (request: Request)
        ensures
            is_request(
                request,
                Method::Get,
                c.host@,
                "api/2/group/member"@,
                put_all(
                    c.query.entries(),
                    member_entries(
                        match opts {
                            Some(o) => o.include_inactive_users(),
                            None => false,
                        },
                        match page {
                            Some(p) => p.start_at,
                            None => 0,
                        },
                        match page {
                            Some(p) => p.max_results,
                            None => 50,
                        },
                        name@,
                    ),
                ),
                c.credentials,
                c.headers.fields(),
                None,
            ),
    {
        let opts = match opts {
            Some(o) => o,
            None => GroupOptions::default(),
        };
        let page = match page {
            Some(p) => p,
            None => Pagination::default(),
        };
        let mut query = opts.to_query();
        let paging = page.to_query();
        proof {
            reveal_strlit("includeInactiveUsers");
            reveal_strlit("startAt");
            reveal_strlit("maxResults");
            reveal_strlit("groupname");
            let a = group_entries(opts.include_inactive_users);
            let b = page_entries(page.start_at, page.max_results);
            assert(a[0].0.len() == 20);
            assert(b[0].0.len() == 7 && b[1].0.len() == 10);
            lemma_put_all_new(a, b);
            lemma_put_new(a + b, "groupname"@, name@);
            assert((a + b).push(("groupname"@, name@)) =~= member_entries(
                opts.include_inactive_users,
                page.start_at,
                page.max_results,
                name@,
            ));
        }
        query.extend(&paging);
        query.insert(String::from_str("groupname"), name);
        c.clone().add_query(query).get("api/2/group/member")
    }
}

} // verus!
