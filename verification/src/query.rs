//! An insertion-ordered mapping from string keys to string values, as a
//! query string is built from. No key occurs twice; writing a key that is
//! already there replaces its value and leaves its position alone.

use vstd::prelude::*;

verus! {

/// One key with its value, as text.
pub type Pair = (Seq<char>, Seq<char>);

/// Some entry has this key.
pub open spec fn has_key(entries: Seq<Pair>, key: Seq<char>) -> bool {
    exists|i: int| 0 <= i < entries.len() && (#[trigger] entries[i]).0 == key
}

/// An index at which `key` stands; only meaningful when `has_key` holds.
pub open spec fn index_of(entries: Seq<Pair>, key: Seq<char>) -> int {
    choose|i: int| 0 <= i < entries.len() && (#[trigger] entries[i]).0 == key
}

/// No two entries share a key.
pub open spec fn distinct_keys(entries: Seq<Pair>) -> bool {
    forall|i: int, j: int|
        0 <= i < entries.len() && 0 <= j < entries.len() && i != j ==> (#[trigger] entries[i]).0
            != (#[trigger] entries[j]).0
}

/// The entries after writing `key`: its value is replaced where it stands,
/// or the pair is added at the end when the key is new.
pub open spec fn put(entries: Seq<Pair>, key: Seq<char>, value: Seq<char>) -> Seq<Pair> {
    if has_key(entries, key) {
        entries.update(index_of(entries, key), (key, value))
    } else {
        entries.push((key, value))
    }
}

/// The entries of `base` after writing every pair of `more`, first to last.
pub open spec fn put_all(base: Seq<Pair>, more: Seq<Pair>) -> Seq<Pair>
    decreases more.len(),
{
    if more.len() == 0 {
        base
    } else {
        put(put_all(base, more.drop_last()), more.last().0, more.last().1)
    }
}

/// Writing a key that is not there adds the pair at the end.
pub proof fn lemma_put_new(entries: Seq<Pair>, key: Seq<char>, value: Seq<char>)
    requires
        forall|i: int| 0 <= i < entries.len() ==> (#[trigger] entries[i]).0 != key,
    ensures
        put(entries, key, value) == entries.push((key, value)),
{
    if has_key(entries, key) {
        let i = index_of(entries, key);
        assert(entries[i].0 == key);
    }
}

/// Writing pairs whose keys are new, and differ from each other, adds them
/// at the end in their order.
pub proof fn lemma_put_all_new(base: Seq<Pair>, more: Seq<Pair>)
    requires
        distinct_keys(more),
        forall|i: int, j: int|
            0 <= i < base.len() && 0 <= j < more.len() ==> (#[trigger] base[i]).0 != (
            #[trigger] more[j]).0,
    ensures
        put_all(base, more) == base + more,
    decreases more.len(),
{
    if more.len() == 0 {
        assert(base + more =~= base);
    } else {
        let front = more.drop_last();
        assert forall|i: int, j: int|
            0 <= i < front.len() && 0 <= j < front.len() && i != j implies (#[trigger] front[i]).0
            != (#[trigger] front[j]).0 by {
            assert(more[i].0 != more[j].0);
        }
        assert forall|i: int, j: int| 0 <= i < base.len() && 0 <= j < front.len() implies (
        #[trigger] base[i]).0 != (#[trigger] front[j]).0 by {
            assert(front[j] == more[j]);
        }
        lemma_put_all_new(base, front);
        let mid = base + front;
        assert forall|i: int| 0 <= i < mid.len() implies (#[trigger] mid[i]).0 != more.last().0 by {
            if i < base.len() {
                assert(mid[i] == base[i]);
                assert(base[i].0 != more[more.len() - 1].0);
            } else {
                assert(mid[i] == more[i - base.len()]);
                assert(more[i - base.len()].0 != more[more.len() - 1].0);
            }
        }
        lemma_put_new(mid, more.last().0, more.last().1);
        assert(mid.push(more.last()) =~= base + more);
    }
}

/// The mapping that a list of entries stands for.
pub open spec fn to_map(entries: Seq<Pair>) -> Map<Seq<char>, Seq<char>> {
    Map::new(|k: Seq<char>| has_key(entries, k), |k: Seq<char>| entries[index_of(entries, k)].1)
}

/// Writing a key keeps the keys distinct.
pub proof fn lemma_put_distinct(entries: Seq<Pair>, key: Seq<char>, value: Seq<char>)
    requires
        distinct_keys(entries),
    ensures
        distinct_keys(put(entries, key, value)),
{
    let after = put(entries, key, value);
    if has_key(entries, key) {
        let at = index_of(entries, key);
        assert forall|i: int, j: int|
            0 <= i < after.len() && 0 <= j < after.len() && i != j implies (#[trigger] after[i]).0
            != (#[trigger] after[j]).0 by {
            assert(entries[i].0 != entries[j].0);
            assert(entries[at].0 == key);
        }
    } else {
        assert forall|i: int, j: int|
            0 <= i < after.len() && 0 <= j < after.len() && i != j implies (#[trigger] after[i]).0
            != (#[trigger] after[j]).0 by {
            if i < entries.len() && j < entries.len() {
                assert(entries[i].0 != entries[j].0);
            } else if i < entries.len() {
                assert(entries[i].0 != key);
            } else {
                assert(entries[j].0 != key);
            }
        }
    }
}

/// With distinct keys, the entry at an index is what the mapping holds for
/// its key.
pub proof fn lemma_to_map_at(entries: Seq<Pair>, i: int)
    requires
        distinct_keys(entries),
        0 <= i < entries.len(),
    ensures
        to_map(entries).contains_key(entries[i].0),
        to_map(entries)[entries[i].0] == entries[i].1,
{
    let key = entries[i].0;
    assert(has_key(entries, key));
    let at = index_of(entries, key);
    assert(entries[at].0 == entries[i].0);
    assert(at == i);
}

/// Writing a key is `insert` on the mapping.
pub proof fn lemma_put_map(entries: Seq<Pair>, key: Seq<char>, value: Seq<char>)
    requires
        distinct_keys(entries),
    ensures
        to_map(put(entries, key, value)) == to_map(entries).insert(key, value),
{
    let after = put(entries, key, value);
    let want = to_map(entries).insert(key, value);
    lemma_put_distinct(entries, key, value);
    assert forall|k: Seq<char>| to_map(after).contains_key(k) <==> want.contains_key(k) by {
        if has_key(after, k) {
            let i = index_of(after, k);
            if k != key {
                assert(entries[i].0 == k);
            }
        }
        if want.contains_key(k) {
            if k == key {
                if has_key(entries, key) {
                    assert(after[index_of(entries, key)].0 == k);
                } else {
                    assert(after[entries.len() as int].0 == k);
                }
            } else {
                let i = index_of(entries, k);
                assert(after[i].0 == k);
            }
        }
    }
    assert forall|k: Seq<char>| to_map(after).contains_key(k) implies to_map(after)[k] == want[k] by {
        let i = index_of(after, k);
        lemma_to_map_at(after, i);
        if k == key {
            if has_key(entries, key) {
                let at = index_of(entries, key);
                assert(after[at].0 == key);
                assert(i == at);
            } else {
                assert(after[entries.len() as int].0 == key);
                assert(i == entries.len());
            }
        } else {
            assert(entries[i].0 == k);
            lemma_to_map_at(entries, i);
        }
    }
    assert(to_map(after) =~= want);
}

/// Writing a list of pairs keeps the keys distinct, and on the mapping it is
/// a union in which the pairs written win.
pub proof fn lemma_put_all_map(base: Seq<Pair>, more: Seq<Pair>)
    requires
        distinct_keys(base),
        distinct_keys(more),
    ensures
        distinct_keys(put_all(base, more)),
        to_map(put_all(base, more)) == to_map(base).union_prefer_right(to_map(more)),
    decreases more.len(),
{
    if more.len() == 0 {
        assert(to_map(more) =~= Map::empty());
        assert(to_map(base).union_prefer_right(to_map(more)) =~= to_map(base));
    } else {
        let front = more.drop_last();
        let (key, value) = more.last();
        assert(distinct_keys(front)) by {
            assert forall|i: int, j: int|
                0 <= i < front.len() && 0 <= j < front.len() && i != j implies (
            #[trigger] front[i]).0 != (#[trigger] front[j]).0 by {
                assert(more[i].0 != more[j].0);
            }
        }
        lemma_put_all_map(base, front);
        let mid = put_all(base, front);
        lemma_put_distinct(mid, key, value);
        lemma_put_map(mid, key, value);
        assert(!has_key(front, key)) by {
            if has_key(front, key) {
                let i = index_of(front, key);
                assert(more[i].0 == more[more.len() - 1].0);
            }
        }
        assert(to_map(more) =~= to_map(front).insert(key, value)) by {
            assert(more == front.push((key, value)));
            assert(put(front, key, value) == more);
            lemma_put_map(front, key, value);
        }
        assert(to_map(base).union_prefer_right(to_map(front)).insert(key, value) =~= to_map(
            base,
        ).union_prefer_right(to_map(front).insert(key, value)));
    }
}

/// An insertion-ordered mapping from string keys to string values.
#[derive(Debug)]
pub struct Query {
    entries: Vec<(String, String)>,
}

impl View for Query {
    type V = Map<Seq<char>, Seq<char>>;

    /// The mapping, without the order.
    open spec fn view(&self) -> Map<Seq<char>, Seq<char>> {
        to_map(self.entries())
    }
}

impl Query {
    /// The entries as text, in the order in which their keys were first
    /// written.
    pub closed spec fn entries(&self) -> Seq<Pair> {
        self.entries@.map_values(|e: (String, String)| (e.0@, e.1@))
    }

    #[verifier::type_invariant]
    spec fn well_formed(&self) -> bool {
        distinct_keys(self.entries())
    }

    /// The empty mapping.
    pub fn new() -> (q: Query)
        ensures
            q.entries() == Seq::<Pair>::empty(),
            q@ == Map::<Seq<char>, Seq<char>>::empty(),
    {
        let q = Query { entries: Vec::new() };
        assert(q.entries() =~= Seq::<Pair>::empty());
        assert(q@ =~= Map::<Seq<char>, Seq<char>>::empty());
        q
    }

    /// The number of entries; no two of them share a key.
    pub fn len(&self) -> (n: usize)
        ensures
            n == self.entries().len(),
            distinct_keys(self.entries()),
    {
        proof {
            use_type_invariant(self);
        }
        self.entries.len()
    }

    /// Whether there is no entry.
    pub fn is_empty(&self) -> (b: bool)
        ensures
            b == (self.entries().len() == 0),
    {
        self.entries.len() == 0
    }

    fn position(&self, key: &String) -> (at: usize)
        ensures
            at <= self.entries().len(),
            at < self.entries().len() ==> self.entries()[at as int].0 == key@,
            at == self.entries().len() ==> !has_key(self.entries(), key@),
            at < self.entries().len() ==> has_key(self.entries(), key@) && index_of(
                self.entries(),
                key@,
            ) == at,
    {
        proof {
            use_type_invariant(self);
        }
        let mut i: usize = 0;
        while i < self.entries.len()
            invariant
                i <= self.entries.len(),
                distinct_keys(self.entries()),
                forall|j: int| 0 <= j < i ==> (#[trigger] self.entries()[j]).0 != key@,
            decreases self.entries.len() - i,
        {
            if self.entries[i].0 == *key {
                proof {
                    let entries = self.entries();
                    assert(entries[i as int].0 == key@);
                    let at = index_of(entries, key@);
                    assert(entries[at].0 == entries[i as int].0);
                }
                return i;
            }
            i = i + 1;
        }
        i
    }

    /// Writes `key`: replaces its value where the key stands, or adds the
    /// pair at the end when the key is new.
    pub fn insert(&mut self, key: String, value: String)
        ensures
            final(self).entries() == put(old(self).entries(), key@, value@),
            final(self)@ == old(self)@.insert(key@, value@),
            distinct_keys(final(self).entries()),
    {
        proof {
            use_type_invariant(&*self);
            lemma_put_distinct(self.entries(), key@, value@);
            lemma_put_map(self.entries(), key@, value@);
        }
        let ghost before = self.entries();
        let at = self.position(&key);
        let mut entries: Vec<(String, String)> = Vec::new();
        core::mem::swap(&mut entries, &mut self.entries);
        if at < entries.len() {
            entries.set(at, (key, value));
        } else {
            entries.push((key, value));
        }
        assert(entries@.map_values(|e: (String, String)| (e.0@, e.1@)) =~= put(
            before,
            key@,
            value@,
        ));
        self.entries = entries;
    }

    /// The value written for `key`, if any.
    pub fn get(&self, key: &str) -> (found: Option<&String>)
        ensures
            found matches Some(value) ==> self@.contains_key(key@) && value@ == self@[key@],
            found is None ==> !self@.contains_key(key@),
    {
        let needle = String::from_str(key);
        let at = self.position(&needle);
        if at < self.entries.len() {
            Some(&self.entries[at].1)
        } else {
            None
        }
    }

    /// Whether `key` was written.
    pub fn contains_key(&self, key: &str) -> (b: bool)
        ensures
            b == self@.contains_key(key@),
    {
        let needle = String::from_str(key);
        let at = self.position(&needle);
        at < self.entries.len()
    }

    /// The entry at position `i`, counted from 0 in the order of
    /// `entries`, or `None` past the end.
    pub fn get_index(&self, i: usize) -> (found: Option<(&String, &String)>)
        ensures
            found is Some == (i < self.entries().len()),
            found matches Some(pair) ==> (pair.0@, pair.1@) == self.entries()[i as int],
    {
        if i < self.entries.len() {
            Some((&self.entries[i].0, &self.entries[i].1))
        } else {
            None
        }
    }

    /// Writes every entry of `other`, first to last; where both hold a key,
    /// the value of `other` stays.
    pub fn extend(&mut self, other: &Query)
        ensures
            final(self).entries() == put_all(old(self).entries(), other.entries()),
            final(self)@ == old(self)@.union_prefer_right(other@),
            distinct_keys(final(self).entries()),
    {
        proof {
            use_type_invariant(&*self);
            use_type_invariant(other);
            lemma_put_all_map(self.entries(), other.entries());
        }
        let ghost before = self.entries();
        let mut i: usize = 0;
        while i < other.entries.len()
            invariant
                i <= other.entries.len(),
                self.entries() == put_all(before, other.entries().take(i as int)),
            decreases other.entries.len() - i,
        {
            proof {
                let next = other.entries().take(i as int + 1);
                assert(next.drop_last() == other.entries().take(i as int));
                assert(next.last() == other.entries()[i as int]);
            }
            let key = other.entries[i].0.clone();
            let value = other.entries[i].1.clone();
            self.insert(key, value);
            i = i + 1;
        }
        proof {
            assert(other.entries().take(other.entries.len() as int) == other.entries());
        }
    }
}

impl Clone for Query {
    /// A copy with the same entries in the same order.
    fn clone(&self) -> (copy: Query)
        ensures
            copy.entries() == self.entries(),
            copy@ == self@,
    {
        let mut copy = Query::new();
        copy.extend(self);
        proof {
            use_type_invariant(self);
            lemma_put_all_fresh(self.entries());
        }
        copy
    }
}

/// Writing a list with distinct keys into the empty list gives that list.
pub proof fn lemma_put_all_fresh(more: Seq<Pair>)
    requires
        distinct_keys(more),
    ensures
        put_all(Seq::empty(), more) == more,
    decreases more.len(),
{
    if more.len() > 0 {
        let front = more.drop_last();
        assert forall|i: int, j: int|
            0 <= i < front.len() && 0 <= j < front.len() && i != j implies (#[trigger] front[i]).0
            != (#[trigger] front[j]).0 by {
            assert(more[i].0 != more[j].0);
        }
        lemma_put_all_fresh(front);
        assert(!has_key(front, more.last().0)) by {
            if has_key(front, more.last().0) {
                let i = index_of(front, more.last().0);
                assert(more[i].0 == more[more.len() - 1].0);
            }
        }
        assert(front.push(more.last()) =~= more);
    } else {
        assert(more =~= Seq::empty());
    }
}

} // verus!
