//! Options are optional values that a request can carry in its query. An
//! option is anything that can say which keys and values it contributes.

use crate::query::{lemma_put_new, Pair, Query};
use crate::text::{join, join_strings, views};
use vstd::prelude::*;

verus! {

/// Something that contributes keys and values to a query.
pub trait Options {
    /// The entries that this option contributes, in their order. An
    /// implementation says here what `to_query` gives.
    open spec fn contribution(&self) -> Seq<Pair> {
        arbitrary()
    }

    /// The contribution as a mapping.
    fn to_query(&self) -> (query: Query)
        ensures
            query.entries() == self.contribution(),
    ;
}

/// Something that stands for the text of one query value.
pub trait QueryOptions {
    /// The text.
    fn to_string(&self) -> String;
}

/// The one entry that asks the server to expand parts of a resource: the
/// key `expand` with the names of the parts, separated by commas.
pub open spec fn expand_entries(names: Seq<Seq<char>>) -> Seq<Pair> {
    seq![("expand"@, join(names, seq![',']))]
}

/// The query with the one entry `expand`, whose value is `names` separated
/// by commas; for no name, the value is empty.
pub fn expand_query(names: &Vec<String>) -> (query: Query)
    ensures
        query.entries() == expand_entries(views(names@)),
{
    proof {
        reveal_strlit(",");
        assert(","@ =~= seq![',']);
    }
    let value = join_strings(names, ",");
    let mut query = Query::new();
    proof {
        lemma_put_new(query.entries(), "expand"@, value@);
    }
    query.insert(String::from_str("expand"), value);
    assert(query.entries() =~= expand_entries(views(names@)));
    query
}

} // verus!
