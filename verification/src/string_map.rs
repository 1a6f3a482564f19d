//! A mapping from names to values that remembers the order in which the names
//! first came.
//!
//! Headers and cookies are kept in it. A name occurs at most once; writing a
//! name again replaces its value where it stands, so the last write wins and
//! what came first stays first.

use vstd::prelude::*;

use crate::text::same_text;

verus! {

/// The model of a mapping: its entries, name and value, in order.
pub type Entries = Seq<(Seq<char>, Seq<char>)>;

/// The first position at or after `from` whose entry has the name `key`.
pub open spec fn position_from(e: Entries, key: Seq<char>, from: int) -> Option<int>
    decreases e.len() - from + 1,
{
    if from < 0 || from >= e.len() {
        None
    } else if e[from].0 == key {
        Some(from)
    } else {
        position_from(e, key, from + 1)
    }
}

/// The first position whose entry has the name `key`.
pub open spec fn position(e: Entries, key: Seq<char>) -> Option<int> {
    position_from(e, key, 0)
}

/// The value that stands under the name `key`.
pub open spec fn lookup(e: Entries, key: Seq<char>) -> Option<Seq<char>> {
    match position(e, key) {
        Some(i) => Some(e[i].1),
        None => None,
    }
}

/// The entries after `value` is written under `key`: in the place of the
/// entry that had this name, or at the end where none had it.
pub open spec fn put(e: Entries, key: Seq<char>, value: Seq<char>) -> Entries {
    match position(e, key) {
        Some(i) => e.update(i, (key, value)),
        None => e.push((key, value)),
    }
}

/// No name occurs twice.
pub open spec fn distinct_keys(e: Entries) -> bool {
    forall|i: int, j: int| 0 <= i < j < e.len() ==> (#[trigger] e[i]).0 != (#[trigger] e[j]).0
}

/// The entries as a mathematical map from names to values.
pub open spec fn as_map(e: Entries) -> Map<Seq<char>, Seq<char>> {
    Map::new(|k: Seq<char>| position(e, k) is Some, |k: Seq<char>| e[position(e, k).unwrap()].1)
}

/// What `position_from` returns has the name, and nothing between `from` and it has.
pub proof fn lemma_position_from(e: Entries, key: Seq<char>, from: int)
    requires
        0 <= from,
    ensures
        match position_from(e, key, from) {
            Some(i) => from <= i < e.len() && e[i].0 == key && forall|j: int|
                from <= j < i ==> (#[trigger] e[j]).0 != key,
            None => forall|j: int| from <= j < e.len() ==> (#[trigger] e[j]).0 != key,
        },
    decreases e.len() - from + 1,
{
    if from >= e.len() {
    } else if e[from].0 == key {
    } else {
        lemma_position_from(e, key, from + 1);
    }
}

/// An entry with the name and none before it is what `position_from` returns.
pub proof fn lemma_position_from_is(e: Entries, key: Seq<char>, from: int, i: int)
    requires
        0 <= from <= i < e.len(),
        e[i].0 == key,
        forall|j: int| from <= j < i ==> (#[trigger] e[j]).0 != key,
    ensures
        position_from(e, key, from) == Some(i),
    decreases i - from,
{
    if from < i {
        lemma_position_from_is(e, key, from + 1, i);
    }
}

/// Where no entry at or after `from` has the name, `position_from` finds none.
pub proof fn lemma_position_from_none(e: Entries, key: Seq<char>, from: int)
    requires
        0 <= from,
        forall|j: int| from <= j < e.len() ==> (#[trigger] e[j]).0 != key,
    ensures
        position_from(e, key, from) is None,
    decreases e.len() - from + 1,
{
    if from < e.len() {
        lemma_position_from_none(e, key, from + 1);
    }
}

/// Writing under a name changes what stands under that name and nothing else,
/// and keeps the names distinct.
pub proof fn lemma_put(e: Entries, key: Seq<char>, value: Seq<char>)
    ensures
        lookup(put(e, key, value), key) == Some(value),
        forall|other: Seq<char>|
            other != key ==> #[trigger] lookup(put(e, key, value), other) == lookup(e, other),
        as_map(put(e, key, value)) == as_map(e).insert(key, value),
        distinct_keys(e) ==> distinct_keys(put(e, key, value)),
        position(e, key) is Some ==> put(e, key, value).len() == e.len(),
        position(e, key) is None ==> put(e, key, value).len() == e.len() + 1,
{
    let after = put(e, key, value);
    lemma_position_from(e, key, 0);
    match position(e, key) {
        Some(i) => {
            lemma_position_from_is(after, key, 0, i);
        },
        None => {
            lemma_position_from_is(after, key, 0, e.len() as int);
        },
    }
    assert forall|other: Seq<char>| other != key implies #[trigger] lookup(after, other) == lookup(
        e,
        other,
    ) by {
        lemma_position_from(e, other, 0);
        match position(e, other) {
            Some(j) => {
                lemma_position_from_is(after, other, 0, j);
            },
            None => {
                lemma_position_from_none(after, other, 0);
            },
        }
    }
    assert forall|k: Seq<char>| #[trigger]
        as_map(after).dom().contains(k) == as_map(e).insert(key, value).dom().contains(k) by {
        if k != key {
            assert(lookup(after, k) == lookup(e, k));
        }
    }
    assert forall|k: Seq<char>| #[trigger] as_map(after).dom().contains(k) implies as_map(after)[k]
        == as_map(e).insert(key, value)[k] by {
        if k != key {
            assert(lookup(after, k) == lookup(e, k));
        }
    }
    assert(as_map(after) =~= as_map(e).insert(key, value));
}

/// A mapping from names to values that keeps the order in which the names first came.
#[derive(Debug)]
pub struct StringMap {
    entries: Vec<(String, String)>,
}

impl View for StringMap {
    type V = Map<Seq<char>, Seq<char>>;

    open spec fn view(&self) -> Map<Seq<char>, Seq<char>> {
        as_map(self.entries())
    }
}

impl StringMap {
    /// The entries of this mapping, in the order in which their names first came.
    pub closed spec fn entries(&self) -> Entries {
        Seq::new(self.entries@.len(), |i: int| (self.entries@[i].0@, self.entries@[i].1@))
    }

    #[verifier::type_invariant]
    spec fn names_distinct(&self) -> bool {
        distinct_keys(self.entries())
    }

    /// A mapping without entries.
    pub fn new() -> (m: StringMap)
        ensures
            m.entries() == Seq::<(Seq<char>, Seq<char>)>::empty(),
    {
        let m = StringMap { entries: Vec::new() };
        assert(m.entries() == Seq::<(Seq<char>, Seq<char>)>::empty());
        m
    }

    /// The number of entries.
    pub fn len(&self) -> (n: usize)
        ensures
            n == self.entries().len(),
            distinct_keys(self.entries()),
    {
        proof {
            use_type_invariant(self);
        }
        self.entries.len()
    }

    /// Whether the mapping has no entry.
    pub fn is_empty(&self) -> (b: bool)
        ensures
            b == (self.entries().len() == 0),
    {
        self.entries.len() == 0
    }

    /// The name and the value of the entry at position `i`, if there is one.
    pub fn entry(&self, i: usize) -> (r: Option<(&String, &String)>)
        ensures
            match r {
                Some(pair) => i < self.entries().len() && pair.0@ == self.entries()[i as int].0
                    && pair.1@ == self.entries()[i as int].1,
                None => i >= self.entries().len(),
            },
    {
        if i < self.entries.len() {
            let pair = &self.entries[i];
            Some((&pair.0, &pair.1))
        } else {
            None
        }
    }

    fn index_of(&self, key: &str) -> (r: Option<usize>)
        ensures
            match r {
                Some(i) => position(self.entries(), key@) == Some(i as int),
                None => position(self.entries(), key@) is None,
            },
    {
        let n = self.entries.len();
        let mut i: usize = 0;
        while i < n
            invariant
                n == self.entries().len(),
                n == self.entries@.len(),
                i <= n,
                position(self.entries(), key@) == position_from(self.entries(), key@, i as int),
            decreases n - i,
        {
            if same_text(self.entries[i].0.as_str(), key) {
                return Some(i);
            }
            i = i + 1;
        }
        None
    }

    /// The value that stands under the name `key`.
    pub fn get(&self, key: &str) -> (r: Option<&String>)
        ensures
            match r {
                Some(value) => lookup(self.entries(), key@) == Some(value@),
                None => lookup(self.entries(), key@) is None,
            },
    {
        match self.index_of(key) {
            Some(i) => {
                proof {
                    lemma_position_from(self.entries(), key@, 0);
                }
                Some(&self.entries[i].1)
            },
            None => None,
        }
    }

    /// Whether a value stands under the name `key`.
    pub fn contains_key(&self, key: &str) -> (b: bool)
        ensures
            b == lookup(self.entries(), key@).is_some(),
    {
        self.index_of(key).is_some()
    }

    /// Writes `value` under the name `key`. A name that the mapping already
    /// has keeps its place and gets the new value; a new name goes to the end.
    pub fn insert(&mut self, key: String, value: String)
        ensures
            final(self).entries() == put(old(self).entries(), key@, value@),
            final(self)@ == old(self)@.insert(key@, value@),
    {
        proof {
            use_type_invariant(&*self);
            lemma_put(self.entries(), key@, value@);
            lemma_position_from(self.entries(), key@, 0);
        }
        let ghost before = self.entries();
        let found = self.index_of(key.as_str());
        let mut taken = StringMap::new();
        core::mem::swap(self, &mut taken);
        let mut entries = taken.entries;
        match found {
            Some(i) => {
                entries.set(i, (key, value));
            },
            None => {
                entries.push((key, value));
            },
        }
        let ghost after = Seq::new(entries@.len(), |i: int| (entries@[i].0@, entries@[i].1@));
        assert(after == put(before, key@, value@));
        *self = StringMap { entries };
    }
}

} // verus!
