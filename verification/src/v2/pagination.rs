//! Paging follows one pattern across the API: a page is asked for by the
//! index of its first item and the number of items wanted.

use crate::options::Options;
use crate::query::{has_key, index_of, put, Pair, Query};
use crate::text::{decimal, i64_to_string};
use vstd::prelude::*;

verus! {

/// A page of a list, as asked for and as reported back.
#[derive(Debug)]
pub struct Pagination {
    /// The index of the first item of the page.
    pub start_at: i64,
    /// The number of items that a page holds at most.
    pub max_results: i64,
    /// The address of the next page, where the server gave one.
    pub next_link: String,
    /// The number of items in the whole list, as far as the server said.
    pub total: i64,
    /// Whether this is the last page.
    pub is_last: bool,
}

/// The query entries that ask for a page: `startAt` and `maxResults`, in
/// decimal.
pub open spec fn page_entries(start_at: i64, max_results: i64) -> Seq<Pair> {
    seq![("startAt"@, decimal(start_at as int)), ("maxResults"@, decimal(max_results as int))]
}

impl Pagination {
    /// The page of at most `max` items that starts at item `start`.
    pub fn new(start: i64, max: i64) -> (page: Pagination)
        ensures
            page.start_at == start,
            page.max_results == max,
            !page.is_last,
            page.total == 0,
            page.next_link@ == Seq::<char>::empty(),
    {
        Pagination {
            start_at: start,
            max_results: max,
            is_last: false,
            total: 0,
            next_link: String::new(),
        }
    }

    /// The page to ask for after this one, or `None` after the last page.
    /// The next page starts `max_results - 1` items further on and has the
    /// same size.
    pub fn next(&self) -> (page: Option<Pagination>)
        requires
            !self.is_last ==> i64::MIN <= self.start_at + (self.max_results - 1) <= i64::MAX,
            !self.is_last ==> self.max_results > i64::MIN,
        ensures
            page is None == self.is_last,
            page matches Some(next) ==> {
                &&& next.start_at == self.start_at + (self.max_results - 1)
                &&& next.max_results == self.max_results
                &&& !next.is_last
                &&& next.total == 0
                &&& next.next_link@ == Seq::<char>::empty()
            },
    {
        if self.is_last {
            None
        } else {
            Some(
                Pagination {
                    start_at: self.start_at + (self.max_results - 1),
                    max_results: self.max_results,
                    is_last: false,
                    total: 0,
                    next_link: String::new(),
                },
            )
        }
    }
}

impl Default for Pagination {
    /// The first page, of at most 50 items.
    fn default() -> (page: Pagination)
        ensures
            page.start_at == 0,
            page.max_results == 50,
            !page.is_last,
            page.total == 0,
            page.next_link@ == Seq::<char>::empty(),
    {
        Pagination { start_at: 0, max_results: 50, is_last: false, total: 0, next_link: String::new() }
    }
}

impl Options for Pagination {
    /// `startAt` and `maxResults`, in that order.
    open spec fn contribution(&self) -> Seq<Pair> {
        page_entries(self.start_at, self.max_results)
    }

    /// `startAt` and `maxResults`, in that order.
    fn to_query(&self) -> (query: Query) {
        let mut query = Query::new();
        query.insert(String::from_str("startAt"), i64_to_string(self.start_at));
        proof {
            reveal_strlit("startAt");
            reveal_strlit("maxResults");
            let first = seq![("startAt"@, decimal(self.start_at as int))];
            assert(query.entries() =~= first);
            assert(!has_key(first, "maxResults"@)) by {
                if has_key(first, "maxResults"@) {
                    let i = index_of(first, "maxResults"@);
                    assert(first[i].0.len() == 7);
                }
            }
            assert(put(first, "maxResults"@, decimal(self.max_results as int)) =~= page_entries(
                self.start_at,
                self.max_results,
            ));
        }
        query.insert(String::from_str("maxResults"), i64_to_string(self.max_results));
        query
    }
}

} // verus!
