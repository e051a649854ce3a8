//! HTTP header fields: a mapping from field names to values in which names
//! that differ only by ASCII letter case count as one name. Every name is
//! kept in lower case.

use crate::query::{distinct_keys, put, put_all, to_map, Pair, Query};
use vstd::prelude::*;

verus! {

/// The ASCII lower-case form of one character; anything but `A` to `Z` is
/// left as it is.
pub open spec fn lower_char(c: char) -> char {
    if 'A' <= c && c <= 'Z' {
        ((c as u8) + 32) as u8 as char
    } else {
        c
    }
}

/// The ASCII lower-case form of a name.
pub open spec fn lower(name: Seq<char>) -> Seq<char> {
    name.map_values(|c: char| lower_char(c))
}

/// Every key is its own lower-case form.
pub open spec fn lower_keys(fields: Seq<Pair>) -> bool {
    forall|i: int| 0 <= i < fields.len() ==> lower((#[trigger] fields[i]).0) == fields[i].0
}

/// The value of the field `key` once `value` was added to it: `value`
/// alone where the field was not set, otherwise what the field held, a
/// comma, a space and `value`.
pub open spec fn combined(
    fields: Map<Seq<char>, Seq<char>>,
    key: Seq<char>,
    value: Seq<char>,
) -> Seq<char> {
    if fields.contains_key(key) {
        fields[key] + seq![',', ' '] + value
    } else {
        value
    }
}

/// Lower-casing twice is lower-casing once.
pub proof fn lemma_lower_idempotent(name: Seq<char>)
    ensures
        lower(lower(name)) == lower(name),
{
    assert forall|i: int| 0 <= i < name.len() implies lower(lower(name))[i] == lower(name)[i] by {
        let c = name[i];
        assert(lower(name)[i] == lower_char(c));
        assert(lower_char(lower_char(c)) == lower_char(c));
    }
    assert(lower(lower(name)) =~= lower(name));
}

/// Writing a lower-case key keeps every key in lower case.
pub proof fn lemma_put_lower(fields: Seq<Pair>, key: Seq<char>, value: Seq<char>)
    requires
        lower_keys(fields),
        lower(key) == key,
    ensures
        lower_keys(put(fields, key, value)),
{
    let after = put(fields, key, value);
    assert forall|i: int| 0 <= i < after.len() implies lower((#[trigger] after[i]).0)
        == after[i].0 by {
        if i < fields.len() && after[i] == fields[i] {
            assert(lower(fields[i].0) == fields[i].0);
        }
    }
}

/// `str::to_ascii_lowercase` of the standard library: a copy of the text in
/// which the letters `A` to `Z` are replaced by `a` to `z` and every other
/// character is kept.
#[verifier::external_body]
fn to_ascii_lowercase(name: &str) -> (out: String)
    ensures
        out@ == lower(name@),
{
    name.to_ascii_lowercase()
}

/// Header fields, keyed by lower-case name.
#[derive(Debug)]
pub struct Headers {
    fields: Query,
}

impl View for Headers {
    type V = Map<Seq<char>, Seq<char>>;

    /// The mapping from lower-case name to value.
    open spec fn view(&self) -> Map<Seq<char>, Seq<char>> {
        to_map(self.fields())
    }
}

impl Headers {
    /// The fields as text, in the order in which their names were first
    /// written.
    pub closed spec fn fields(&self) -> Seq<Pair> {
        self.fields.entries()
    }

    #[verifier::type_invariant]
    spec fn well_formed(&self) -> bool {
        lower_keys(self.fields.entries())
    }

    /// No field.
    pub fn new() -> (h: Headers)
        ensures
            h.fields() == Seq::<Pair>::empty(),
            h@ == Map::<Seq<char>, Seq<char>>::empty(),
    {
        let h = Headers { fields: Query::new() };
        assert(h@ =~= Map::<Seq<char>, Seq<char>>::empty());
        h
    }

    /// The number of fields; no two of them share a name, and every name is
    /// in lower case.
    pub fn len(&self) -> (n: usize)
        ensures
            n == self.fields().len(),
            distinct_keys(self.fields()),
            lower_keys(self.fields()),
    {
        proof {
            use_type_invariant(self);
        }
        self.fields.len()
    }

    /// Whether there is no field.
    pub fn is_empty(&self) -> (b: bool)
        ensures
            b == (self.fields().len() == 0),
    {
        self.fields.is_empty()
    }

    /// Sets the field `name` to `value`, whatever the letter case of `name`:
    /// a field of that name is replaced where it stands, a new one is added
    /// at the end.
    pub fn insert(&mut self, name: &str, value: String)
        ensures
            final(self).fields() == put(old(self).fields(), lower(name@), value@),
            final(self)@ == old(self)@.insert(lower(name@), value@),
            distinct_keys(final(self).fields()),
            lower_keys(final(self).fields()),
    {
        proof {
            use_type_invariant(&*self);
            lemma_lower_idempotent(name@);
            lemma_put_lower(self.fields(), lower(name@), value@);
        }
        let key = to_ascii_lowercase(name);
        let mut fields = Query::new();
        core::mem::swap(&mut fields, &mut self.fields);
        fields.insert(key, value);
        self.fields = fields;
    }

    /// Adds one more value to the field `name`, whatever the letter case
    /// of `name`, as for a field that a message repeats: a field of that
    /// name takes the value it had, a comma, a space and `value`; a new
    /// field is added at the end with `value` alone.
    pub fn append(&mut self, name: &str, value: String)
        ensures
            final(self).fields() == put(
                old(self).fields(),
                lower(name@),
                combined(old(self)@, lower(name@), value@),
            ),
            final(self)@ == old(self)@.insert(
                lower(name@),
                combined(old(self)@, lower(name@), value@),
            ),
            distinct_keys(final(self).fields()),
            lower_keys(final(self).fields()),
    {
        let joined = match self.get(name) {
            Some(held) => {
                proof {
                    reveal_strlit(", ");
                    assert(", "@ =~= seq![',', ' ']);
                }
                let mut joined = held.clone();
                joined.append(", ");
                joined.append(value.as_str());
                joined
            },
            None => value,
        };
        self.insert(name, joined);
    }

    /// The value of the field `name`, whatever the letter case of `name`.
    pub fn get(&self, name: &str) -> (found: Option<&String>)
        ensures
            found matches Some(value) ==> self@.contains_key(lower(name@)) && value@
                == self@[lower(name@)],
            found is None ==> !self@.contains_key(lower(name@)),
    {
        let key = to_ascii_lowercase(name);
        self.fields.get(key.as_str())
    }

    /// Whether the field `name` is set, whatever the letter case of `name`.
    pub fn contains_key(&self, name: &str) -> (b: bool)
        ensures
            b == self@.contains_key(lower(name@)),
    {
        let key = to_ascii_lowercase(name);
        self.fields.contains_key(key.as_str())
    }

    /// The field at position `i`, counted from 0 in the order of `fields`,
    /// or `None` past the end.
    pub fn get_index(&self, i: usize) -> (found: Option<(&String, &String)>)
        ensures
            found is Some == (i < self.fields().len()),
            found matches Some(pair) ==> (pair.0@, pair.1@) == self.fields()[i as int],
    {
        self.fields.get_index(i)
    }

    /// Sets every field of `other`, first to last; where both hold a name,
    /// the value of `other` stays.
    pub fn extend(&mut self, other: &Headers)
        ensures
            final(self).fields() == put_all(old(self).fields(), other.fields()),
            final(self)@ == old(self)@.union_prefer_right(other@),
            distinct_keys(final(self).fields()),
            lower_keys(final(self).fields()),
    {
        proof {
            use_type_invariant(&*self);
            use_type_invariant(other);
            lemma_put_all_lower(self.fields(), other.fields());
        }
        let mut fields = Query::new();
        core::mem::swap(&mut fields, &mut self.fields);
        fields.extend(&other.fields);
        self.fields = fields;
    }
}

/// Writing pairs with lower-case keys keeps every key in lower case.
pub proof fn lemma_put_all_lower(base: Seq<Pair>, more: Seq<Pair>)
    requires
        lower_keys(base),
        lower_keys(more),
    ensures
        lower_keys(put_all(base, more)),
    decreases more.len(),
{
    if more.len() > 0 {
        let front = more.drop_last();
        assert forall|i: int| 0 <= i < front.len() implies lower((#[trigger] front[i]).0)
            == front[i].0 by {
            assert(front[i] == more[i]);
        }
        lemma_put_all_lower(base, front);
        assert(lower(more[more.len() - 1].0) == more[more.len() - 1].0);
        lemma_put_lower(put_all(base, front), more.last().0, more.last().1);
    }
}

impl Clone for Headers {
    /// A copy with the same fields in the same order.
    fn clone(&self) -> (copy: Headers)
        ensures
            copy.fields() == self.fields(),
            copy@ == self@,
    {
        proof {
            use_type_invariant(self);
        }
        Headers { fields: self.fields.clone() }
    }
}

} // verus!
