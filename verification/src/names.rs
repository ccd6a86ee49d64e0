//! A map from names to values in which each name is bound at most once.

use crate::strings::{same_text, texts};
use vstd::prelude::*;

verus! {

/// A map from names to values. A name is bound to at most one value: binding
/// it again replaces the earlier value.
pub struct NameMap<T> {
    entries: Vec<(String, T)>,
}

/// The names of `entries`, in their order.
pub open spec fn names_of<T>(entries: Seq<(String, T)>) -> Seq<Seq<char>> {
    Seq::new(entries.len(), |i: int| entries[i].0@)
}

/// Whether `entries` binds `name` at `i`.
pub open spec fn binds_at<T>(entries: Seq<(String, T)>, name: Seq<char>, i: int) -> bool {
    0 <= i < entries.len() && entries[i].0@ == name
}

impl<T> View for NameMap<T> {
    type V = Map<Seq<char>, T>;

    /// The bindings as a mathematical map.
    closed spec fn view(&self) -> Map<Seq<char>, T> {
        Map::new(
            |name: Seq<char>| exists|i: int| binds_at(self.entries@, name, i),
            |name: Seq<char>| self.entries@[choose|i: int| binds_at(self.entries@, name, i)].1,
        )
    }
}

impl<T> NameMap<T> {
    /// No name occurs twice among the entries.
    pub closed spec fn wf(&self) -> bool {
        names_of(self.entries@).no_duplicates()
    }

    /// With distinct names, the map holds exactly what the entries hold.
    proof fn lemma_view(&self)
        requires
            self.wf(),
        ensures
            forall|i: int|
                0 <= i < self.entries@.len() ==> self@.contains_key(
                    #[trigger] self.entries@[i].0@,
                ) && self@[self.entries@[i].0@] == self.entries@[i].1,
            forall|name: Seq<char>|
                self@.contains_key(name) ==> exists|i: int| binds_at(self.entries@, name, i),
            self@.dom() == names_of(self.entries@).to_set(),
            self@.dom().finite(),
            self@.dom().len() == self.entries@.len(),
    {
        let entries = self.entries@;
        let names = names_of(entries);
        assert forall|i: int| 0 <= i < entries.len() implies self@.contains_key(
            #[trigger] entries[i].0@,
        ) && self@[entries[i].0@] == entries[i].1 by {
            let name = entries[i].0@;
            assert(binds_at(entries, name, i));
            let j = choose|j: int| binds_at(entries, name, j);
            assert(names[i] == names[j]);
        }
        assert forall|name: Seq<char>| self@.dom().contains(name) <==> names.to_set().contains(
            name,
        ) by {
            if self@.dom().contains(name) {
                let i = choose|i: int| binds_at(entries, name, i);
                assert(names[i] == name);
            }
            if names.to_set().contains(name) {
                let i = choose|i: int| 0 <= i < names.len() && names[i] == name;
                assert(binds_at(entries, name, i));
            }
        }
        assert(self@.dom() =~= names.to_set());
        vstd::seq_lib::seq_to_set_is_finite(names);
        names.unique_seq_to_set();
    }

    /// The map without bindings.
    pub fn new() -> (map: Self)
        ensures
            map.wf(),
            map@ == Map::<Seq<char>, T>::empty(),
    {
        let map = NameMap { entries: Vec::new() };
        assert(map@ =~= Map::<Seq<char>, T>::empty());
        map
    }

    /// Where `name` is bound among the entries, if it is.
    fn position(&self, name: &str) -> (at: Option<usize>)
        requires
            self.wf(),
        ensures
            at matches Some(i) ==> binds_at(self.entries@, name@, i as int),
            at is None ==> forall|i: int| !binds_at(self.entries@, name@, i),
            at is Some <==> self@.contains_key(name@),
    {
        let mut i: usize = 0;
        while i < self.entries.len()
            invariant
                i <= self.entries.len(),
                forall|k: int| 0 <= k < i ==> !binds_at(self.entries@, name@, k),
            decreases self.entries.len() - i,
        {
            if same_text(self.entries[i].0.as_str(), name) {
                assert(binds_at(self.entries@, name@, i as int));
                return Some(i);
            }
            i = i + 1;
        }
        None
    }

    /// The number of names that are bound.
    pub fn len(&self) -> (n: usize)
        requires
            self.wf(),
        ensures
            self@.dom().finite(),
            n == self@.dom().len(),
    {
        proof {
            self.lemma_view();
        }
        self.entries.len()
    }

    /// The names that are bound, each once.
    pub fn names(&self) -> (names: Vec<String>)
        requires
            self.wf(),
        ensures
            texts(names@).no_duplicates(),
            texts(names@).to_set() == self@.dom(),
    {
        let mut names: Vec<String> = Vec::new();
        let mut i: usize = 0;
        while i < self.entries.len()
            invariant
                i <= self.entries.len(),
                names@.len() == i,
                texts(names@) == names_of(self.entries@).take(i as int),
            decreases self.entries.len() - i,
        {
            let ghost before = names@;
            names.push(self.entries[i].0.clone());
            assert forall|k: int| 0 <= k < i + 1 implies texts(names@)[k] == names_of(
                self.entries@,
            )[k] by {
                if k < i {
                    assert(texts(before)[k] == names_of(self.entries@).take(i as int)[k]);
                }
            }
            assert(texts(names@) =~= names_of(self.entries@).take(i + 1));
            i = i + 1;
        }
        proof {
            assert(names_of(self.entries@).take(i as int) =~= names_of(self.entries@));
            self.lemma_view();
        }
        names
    }

    /// Tells whether `name` is bound.
    pub fn contains(&self, name: &str) -> (r: bool)
        requires
            self.wf(),
        ensures
            r == self@.contains_key(name@),
    {
        self.position(name).is_some()
    }

    /// The value that `name` is bound to, if it is bound.
    pub fn get(&self, name: &str) -> (value: Option<&T>)
        requires
            self.wf(),
        ensures
            value is Some <==> self@.contains_key(name@),
            value matches Some(v) ==> *v == self@[name@],
    {
        proof {
            self.lemma_view();
        }
        match self.position(name) {
            Some(i) => Some(&self.entries[i].1),
            None => None,
        }
    }

    /// Taking one entry out leaves the other bindings as they were.
    proof fn lemma_removed(before: Self, after: Self, at: int)
        requires
            before.wf(),
            0 <= at < before.entries@.len(),
            after.entries@ == before.entries@.remove(at),
        ensures
            after.wf(),
            after@ == before@.remove(before.entries@[at].0@),
    {
        let old_entries = before.entries@;
        let entries = after.entries@;
        let name = old_entries[at].0@;
        let origin = |k: int|
            if k >= at {
                k + 1
            } else {
                k
            };
        assert forall|i: int, j: int|
            0 <= i < entries.len() && 0 <= j < entries.len() && i != j implies names_of(
            entries,
        )[i] != names_of(entries)[j] by {
            assert(entries[i] == old_entries[origin(i)]);
            assert(entries[j] == old_entries[origin(j)]);
            assert(names_of(old_entries)[origin(i)] != names_of(old_entries)[origin(j)]);
        }
        before.lemma_view();
        after.lemma_view();
        assert forall|key: Seq<char>| #[trigger]
            after@.contains_key(key) <==> before@.remove(name).contains_key(key) by {
            if after@.contains_key(key) {
                let i = choose|i: int| binds_at(entries, key, i);
                assert(entries[i] == old_entries[origin(i)]);
                assert(binds_at(old_entries, key, origin(i)));
                assert(names_of(old_entries)[origin(i)] == key);
                assert(names_of(old_entries)[at] == name);
            }
            if before@.contains_key(key) && key != name {
                let k = choose|k: int| binds_at(old_entries, key, k);
                let i = if k > at {
                    k - 1
                } else {
                    k
                };
                assert(binds_at(entries, key, i));
            }
        }
        assert forall|key: Seq<char>| #[trigger]
            after@.contains_key(key) implies after@[key] == before@.remove(name)[key] by {
            let i = choose|i: int| binds_at(entries, key, i);
            assert(entries[i] == old_entries[origin(i)]);
            assert(binds_at(old_entries, key, origin(i)));
        }
        assert(after@ =~= before@.remove(name));
    }

    /// A new value in the place of an entry's value rebinds the entry's name.
    proof fn lemma_replaced(before: Self, after: Self, at: int, value: T)
        requires
            before.wf(),
            0 <= at < before.entries@.len(),
            after.entries@ == before.entries@.update(at, (before.entries@[at].0, value)),
        ensures
            after.wf(),
            after@ == before@.insert(before.entries@[at].0@, value),
    {
        let old_entries = before.entries@;
        let entries = after.entries@;
        let name = old_entries[at].0@;
        assert(names_of(entries) =~= names_of(old_entries));
        before.lemma_view();
        after.lemma_view();
        assert forall|key: Seq<char>| #[trigger]
            after@.contains_key(key) implies after@[key] == before@.insert(name, value)[key] by {
            let i = choose|i: int| binds_at(entries, key, i);
            assert(binds_at(old_entries, key, i));
            if key == name {
                assert(names_of(old_entries)[i] == names_of(old_entries)[at]);
            } else {
                assert(entries[i] == old_entries[i]);
            }
        }
        assert(after@ =~= before@.insert(name, value));
    }

    /// A new entry for a name that is not bound yet adds that binding.
    proof fn lemma_pushed(before: Self, after: Self, entry: (String, T))
        requires
            before.wf(),
            !before@.contains_key(entry.0@),
            after.entries@ == before.entries@.push(entry),
        ensures
            after.wf(),
            after@ == before@.insert(entry.0@, entry.1),
    {
        let old_entries = before.entries@;
        let entries = after.entries@;
        let last = old_entries.len() as int;
        before.lemma_view();
        assert forall|i: int, j: int|
            0 <= i < entries.len() && 0 <= j < entries.len() && i != j implies names_of(
            entries,
        )[i] != names_of(entries)[j] by {
            if i < last && j < last {
                assert(names_of(old_entries)[i] != names_of(old_entries)[j]);
            } else if i < last {
                assert(binds_at(old_entries, entries[i].0@, i));
            } else {
                assert(binds_at(old_entries, entries[j].0@, j));
            }
        }
        after.lemma_view();
        assert forall|key: Seq<char>| #[trigger]
            after@.contains_key(key) <==> before@.insert(entry.0@, entry.1).contains_key(key) by {
            if after@.contains_key(key) && key != entry.0@ {
                let i = choose|i: int| binds_at(entries, key, i);
                assert(binds_at(old_entries, key, i));
            }
            if before@.contains_key(key) {
                let k = choose|k: int| binds_at(old_entries, key, k);
                assert(binds_at(entries, key, k));
            }
            if key == entry.0@ {
                assert(binds_at(entries, key, last));
            }
        }
        assert forall|key: Seq<char>| #[trigger]
            after@.contains_key(key) implies after@[key] == before@.insert(entry.0@, entry.1)[key] by {
            if key != entry.0@ {
                let k = choose|k: int| binds_at(old_entries, key, k);
                assert(binds_at(entries, key, k));
                assert(entries[k] == old_entries[k]);
            } else {
                assert(entries[last] == entry);
            }
        }
        assert(after@ =~= before@.insert(entry.0@, entry.1));
    }

    /// Binds `name` to `value`. An earlier binding of `name` is replaced.
    pub fn insert(&mut self, name: &str, value: T)
        requires
            old(self).wf(),
        ensures
            final(self).wf(),
            final(self)@ == old(self)@.insert(name@, value),
    {
        let ghost before = *self;
        match self.position(name) {
            Some(at) => {
                self.entries[at].1 = value;
                proof {
                    Self::lemma_replaced(before, *self, at as int, value);
                }
            },
            None => {
                let entry = (name.to_owned(), value);
                self.entries.push(entry);
                proof {
                    Self::lemma_pushed(before, *self, entry);
                }
            },
        }
    }

    /// Removes the binding of `name` and hands its value back. A name that is
    /// not bound leaves the map as it is.
    pub fn remove(&mut self, name: &str) -> (released: Option<T>)
        requires
            old(self).wf(),
        ensures
            final(self).wf(),
            final(self)@ == old(self)@.remove(name@),
            released is Some <==> old(self)@.contains_key(name@),
            released matches Some(v) ==> v == old(self)@[name@],
    {
        let ghost before = *self;
        proof {
            before.lemma_view();
        }
        match self.position(name) {
            Some(at) => {
                let entry = self.entries.remove(at);
                proof {
                    Self::lemma_removed(before, *self, at as int);
                }
                Some(entry.1)
            },
            None => {
                assert(self@ =~= before@.remove(name@));
                None
            },
        }
    }

    /// Removes every binding.
    pub fn clear(&mut self)
        ensures
            final(self).wf(),
            final(self)@ == Map::<Seq<char>, T>::empty(),
    {
        self.entries.clear();
        assert(self@ =~= Map::<Seq<char>, T>::empty());
    }
}

} // verus!
