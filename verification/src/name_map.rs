//! Maps from names to values, kept as lists of entries in the order in
//! which the names were first stored, and what it means to look a name up
//! in such a list.

use vstd::prelude::*;

verus! {

/// The position of the first entry of `entries` that is named `key`.
pub open spec fn position<T>(entries: Seq<(Seq<char>, T)>, key: Seq<char>) -> Option<int>
    decreases entries.len(),
{
    if entries.len() == 0 {
        None
    } else {
        match position(entries.drop_last(), key) {
            Some(at) => Some(at),
            None => if entries.last().0 == key {
                Some(entries.len() - 1)
            } else {
                None
            },
        }
    }
}

/// What `entries` holds under the name `key`: the value of the first entry
/// of that name.
pub open spec fn lookup<T>(entries: Seq<(Seq<char>, T)>, key: Seq<char>) -> Option<T> {
    match position(entries, key) {
        Some(at) => Some(entries[at].1),
        None => None,
    }
}

/// `entries` after `value` was stored under `key`: the entry of that name is
/// replaced where there is one, and a new entry is added at the end where
/// there is none.
pub open spec fn stored<T>(entries: Seq<(Seq<char>, T)>, key: Seq<char>, value: T) -> Seq<
    (Seq<char>, T),
> {
    match position(entries, key) {
        Some(at) => entries.update(at, (key, value)),
        None => entries.push((key, value)),
    }
}

/// No two entries of `entries` have the same name.
pub open spec fn distinct_names<T>(entries: Seq<(Seq<char>, T)>) -> bool {
    forall|i: int, j: int| 0 <= i < j < entries.len() ==> entries[i].0 != entries[j].0
}

/// A position is the first of its name exactly when `position` returns it.
pub proof fn lemma_position_found<T>(entries: Seq<(Seq<char>, T)>, key: Seq<char>, at: int)
    requires
        0 <= at < entries.len(),
        entries[at].0 == key,
        forall|i: int| 0 <= i < at ==> entries[i].0 != key,
    ensures
        position(entries, key) == Some(at),
    decreases entries.len(),
{
    if at == entries.len() - 1 {
        lemma_position_absent(entries.drop_last(), key);
    } else {
        lemma_position_found(entries.drop_last(), key, at);
    }
}

/// Where no entry has the name, `position` finds none.
pub proof fn lemma_position_absent<T>(entries: Seq<(Seq<char>, T)>, key: Seq<char>)
    requires
        forall|i: int| 0 <= i < entries.len() ==> entries[i].0 != key,
    ensures
        position(entries, key) is None,
    decreases entries.len(),
{
    if entries.len() > 0 {
        lemma_position_absent(entries.drop_last(), key);
    }
}

/// What `position` returns is the first position of that name, and it
/// returns none only where no entry has the name.
pub proof fn lemma_position_is_first<T>(entries: Seq<(Seq<char>, T)>, key: Seq<char>)
    ensures
        match position(entries, key) {
            Some(at) => 0 <= at < entries.len() && entries[at].0 == key && forall|i: int|
                0 <= i < at ==> entries[i].0 != key,
            None => forall|i: int| 0 <= i < entries.len() ==> entries[i].0 != key,
        },
    decreases entries.len(),
{
    if entries.len() > 0 {
        let front = entries.drop_last();
        lemma_position_is_first(front, key);
        assert(forall|i: int| 0 <= i < front.len() ==> front[i] == entries[i]);
    }
}

/// After `value` was stored under `key`, a lookup of `key` gives `value`,
/// and a lookup of any other name gives what it gave before.
pub proof fn lemma_lookup_stored<T>(
    entries: Seq<(Seq<char>, T)>,
    key: Seq<char>,
    value: T,
    other: Seq<char>,
)
    ensures
        lookup(stored(entries, key, value), key) == Some(value),
        other != key ==> lookup(stored(entries, key, value), other) == lookup(entries, other),
        distinct_names(entries) ==> distinct_names(stored(entries, key, value)),
{
    let after = stored(entries, key, value);
    lemma_position_is_first(entries, key);
    lemma_position_is_first(entries, other);
    match position(entries, key) {
        Some(at) => {
            lemma_position_found(after, key, at);
            if other != key {
                match position(entries, other) {
                    Some(there) => {
                        lemma_position_found(after, other, there);
                    },
                    None => {
                        lemma_position_absent(after, other);
                    },
                }
            }
        },
        None => {
            lemma_position_found(after, key, entries.len() as int);
            if other != key {
                match position(entries, other) {
                    Some(there) => {
                        lemma_position_found(after, other, there);
                    },
                    None => {
                        lemma_position_absent(after, other);
                    },
                }
            }
        },
    }
}

/// Finds the first entry named `key`.
pub fn find_entry<V: DeepView>(entries: &Vec<(String, V)>, key: &str) -> (found: Option<usize>)
    ensures
        match found {
            Some(at) => at < entries.len() && position(entries.deep_view(), key@) == Some(
                at as int,
            ),
            None => position(entries.deep_view(), key@) is None,
        },
{
    let wanted = key.to_owned();
    let mut at: usize = 0;
    while at < entries.len()
        invariant
            at <= entries.len(),
            wanted@ == key@,
            forall|i: int| 0 <= i < at ==> entries.deep_view()[i].0 != key@,
        decreases entries.len() - at,
    {
        if entries[at].0 == wanted {
            proof {
                lemma_position_found(entries.deep_view(), key@, at as int);
            }
            return Some(at);
        }
        at = at + 1;
    }
    proof {
        lemma_position_absent(entries.deep_view(), key@);
    }
    None
}

/// A map from names to values that keeps its entries in the order in which
/// their names were first stored.
#[derive(Debug, PartialEq)]
pub struct NameMap<V> {
    entries: Vec<(String, V)>,
}

impl<V: DeepView> DeepView for NameMap<V> {
    type V = Seq<(Seq<char>, V::V)>;

    closed spec fn deep_view(&self) -> Seq<(Seq<char>, V::V)> {
        self.entries.deep_view()
    }
}

impl<V: DeepView> View for NameMap<V> {
    type V = Seq<(Seq<char>, V::V)>;

    open spec fn view(&self) -> Seq<(Seq<char>, V::V)> {
        self.deep_view()
    }
}

impl<V> NameMap<V> {
    #[verifier::type_invariant]
    spec fn names_differ(&self) -> bool {
        forall|i: int, j: int|
            0 <= i < j < self.entries@.len() ==> self.entries@[i].0@ != self.entries@[j].0@
    }
}

impl<V: DeepView> NameMap<V> {
    /// The value stored at position `at`, as it is.
    pub closed spec fn value_at(&self, at: int) -> V {
        self.entries@[at].1
    }

    /// Two maps with the same names in the same order, whose values have
    /// the same models, have the same model.
    pub proof fn lemma_same_entries(&self, other: &Self)
        requires
            self.deep_view().len() == other.deep_view().len(),
            forall|at: int|
                0 <= at < self.deep_view().len() ==> (#[trigger] other.deep_view()[at]).0
                    == self.deep_view()[at].0,
            forall|at: int|
                0 <= at < self.deep_view().len() ==> (#[trigger] self.value_at(at)).deep_view()
                    == other.value_at(at).deep_view(),
        ensures
            self.deep_view() == other.deep_view(),
    {
        assert forall|at: int| 0 <= at < self.deep_view().len() implies self.deep_view()[at]
            == other.deep_view()[at] by {
            assert(self.deep_view()[at].1 == self.value_at(at).deep_view());
        }
    }

    /// An empty map.
    pub fn new() -> (map: Self)
        ensures
            map.deep_view() == Seq::<(Seq<char>, V::V)>::empty(),
    {
        let map = NameMap { entries: Vec::new() };
        map
    }

    /// The number of entries.
    pub fn len(&self) -> (count: usize)
        ensures
            count == self.deep_view().len(),
            distinct_names(self.deep_view()),
    {
        proof {
            use_type_invariant(self);
        }
        self.entries.len()
    }

    /// Whether the map has no entry.
    pub fn is_empty(&self) -> (empty: bool)
        ensures
            empty == (self.deep_view().len() == 0),
    {
        self.entries.len() == 0
    }

    /// Stores `value` under `key`, in place of the value that was stored
    /// under that name, if there was one.
    pub fn insert(&mut self, key: String, value: V)
        ensures
            final(self).deep_view() == stored(old(self).deep_view(), key@, value.deep_view()),
    {
        proof {
            use_type_invariant(&*self);
            lemma_lookup_stored(self.entries.deep_view(), key@, value.deep_view(), key@);
        }
        let ghost before = self.entries.deep_view();
        let ghost name = key@;
        let ghost model = value.deep_view();
        let found = find_entry(&self.entries, key.as_str());
        let mut entries: Vec<(String, V)> = Vec::new();
        core::mem::swap(&mut self.entries, &mut entries);
        match found {
            Some(at) => {
                entries.set(at, (key, value));
                assert(entries.deep_view() =~= before.update(at as int, (name, model)));
            },
            None => {
                entries.push((key, value));
                assert(entries.deep_view() =~= before.push((name, model)));
            },
        }
        assert forall|i: int, j: int| 0 <= i < j < entries@.len() implies entries@[i].0@
            != entries@[j].0@ by {
            assert(entries.deep_view()[i].0 != entries.deep_view()[j].0);
        }
        core::mem::swap(&mut self.entries, &mut entries);
    }

    /// The value stored under `key`.
    pub fn get(&self, key: &str) -> (found: Option<&V>)
        ensures
            match found {
                Some(value) => lookup(self.deep_view(), key@) == Some(value.deep_view()),
                None => lookup(self.deep_view(), key@) is None,
            },
    {
        match find_entry(&self.entries, key) {
            Some(at) => Some(&self.entries[at].1),
            None => None,
        }
    }

    /// Whether a value is stored under `key`.
    pub fn contains_key(&self, key: &str) -> (present: bool)
        ensures
            present == lookup(self.deep_view(), key@).is_some(),
    {
        find_entry(&self.entries, key).is_some()
    }

    /// The entries, in their order.
    pub(crate) fn pairs(&self) -> (pairs: &Vec<(String, V)>)
        ensures
            pairs.deep_view() == self.deep_view(),
    {
        &self.entries
    }

    /// The name of the entry at position `at`.
    pub fn name(&self, at: usize) -> (name: &String)
        requires
            at < self.deep_view().len(),
        ensures
            name@ == self.deep_view()[at as int].0,
    {
        &self.entries[at].0
    }

    /// The value of the entry at position `at`.
    pub fn value(&self, at: usize) -> (value: &V)
        requires
            at < self.deep_view().len(),
        ensures
            value.deep_view() == self.deep_view()[at as int].1,
            *value == self.value_at(at as int),
    {
        &self.entries[at].1
    }
}

impl<V: DeepView + Clone> Clone for NameMap<V> {
    /// A map with the same names in the same order, each with a clone of
    /// its value.
    fn clone(&self) -> (copy: Self)
        ensures
            copy.deep_view().len() == self.deep_view().len(),
            forall|at: int|
                0 <= at < self.deep_view().len() ==> (#[trigger] copy.deep_view()[at]).0
                    == self.deep_view()[at].0,
            forall|at: int|
                0 <= at < self.deep_view().len() ==> cloned(
                    self.value_at(at),
                    #[trigger] copy.value_at(at),
                ),
    {
        proof {
            use_type_invariant(self);
        }
        let mut entries: Vec<(String, V)> = Vec::new();
        let mut at: usize = 0;
        while at < self.entries.len()
            invariant
                at <= self.entries.len(),
                entries@.len() == at,
                forall|i: int|
                    0 <= i < at ==> (#[trigger] entries@[i]).0@ == self.entries@[i].0@ && cloned(
                        self.entries@[i].1,
                        entries@[i].1,
                    ),
            decreases self.entries.len() - at,
        {
            let name = self.entries[at].0.clone();
            let value = self.entries[at].1.clone();
            entries.push((name, value));
            at = at + 1;
        }
        NameMap { entries }
    }
}

} // verus!
