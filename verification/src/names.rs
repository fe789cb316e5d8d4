//! A collection keyed by name, in the order in which the names first came.

use vstd::prelude::*;
use crate::text::same_text;

verus! {

/// Items under distinct names. A name keeps the place where it was first
/// inserted; inserting under it again replaces its item.
#[derive(Debug)]
pub struct NameMap<T> {
    entries: Vec<(String, T)>,
}

impl<T> NameMap<T> {
    #[verifier::type_invariant]
    spec fn distinct(self) -> bool {
        forall|i: int, j: int|
            0 <= i < j < self.entries@.len() ==> self.entries@[i].0@ != self.entries@[j].0@
    }

    /// The names, in the order of their first insertion.
    pub closed spec fn names(&self) -> Seq<Seq<char>> {
        Seq::new(self.entries@.len(), |i: int| self.entries@[i].0@)
    }

    /// The items, each at the index of its name.
    pub closed spec fn items(&self) -> Seq<T> {
        Seq::new(self.entries@.len(), |i: int| self.entries@[i].1)
    }

    /// What the collection holds: a name occurs once in `names()`, and
    /// stands for the item at the same index.
    pub open spec fn well_formed(&self) -> bool {
        &&& self.names().no_duplicates()
        &&& self.names().len() == self.items().len()
    }

    /// The item under each name.
    pub open spec fn view(&self) -> Map<Seq<char>, T> {
        Map::new(
            |name: Seq<char>| self.names().contains(name),
            |name: Seq<char>| self.items()[self.names().index_of(name)],
        )
    }

    /// An empty collection.
    pub fn new() -> (m: Self)
        ensures
            m.names() == Seq::<Seq<char>>::empty(),
            m.items() == Seq::<T>::empty(),
            m@ == Map::<Seq<char>, T>::empty(),
            m.well_formed(),
    {
        let m = NameMap { entries: Vec::new() };
        assert(m.names() =~= Seq::<Seq<char>>::empty());
        assert(m.items() =~= Seq::<T>::empty());
        assert(m@ =~= Map::<Seq<char>, T>::empty());
        m
    }

    /// How many names there are.
    pub fn len(&self) -> (n: usize)
        ensures
            n == self.names().len(),
            n == self@.dom().len(),
            self.well_formed(),
    {
        proof {
            use_type_invariant(self);
            self.names().unique_seq_to_set();
            assert(self@.dom() =~= self.names().to_set());
        }
        self.entries.len()
    }

    /// Whether there is no name at all.
    pub fn is_empty(&self) -> (b: bool)
        ensures
            b == (self.names().len() == 0),
            b == (self@.dom() == Set::<Seq<char>>::empty()),
            self.well_formed(),
    {
        proof {
            use_type_invariant(self);
            if self.names().len() > 0 {
                assert(self.names().contains(self.names()[0]));
                assert(self@.dom().contains(self.names()[0]));
            } else {
                assert(self@.dom() =~= Set::<Seq<char>>::empty());
            }
        }
        self.entries.len() == 0
    }

    /// The index of `name`, if it is there.
    pub fn position(&self, name: &str) -> (at: Option<usize>)
        ensures
            self.well_formed(),
            match at {
                Some(i) => i < self.names().len() && self.names()[i as int] == name@,
                None => !self.names().contains(name@),
            },
    {
        proof {
            use_type_invariant(self);
        }
        assert(self.well_formed());
        let mut i: usize = 0;
        while i < self.entries.len()
            invariant
                self.well_formed(),
                i <= self.entries@.len(),
                forall|j: int| 0 <= j < i ==> self.entries@[j].0@ != name@,
            decreases self.entries@.len() - i,
        {
            if same_text(self.entries[i].0.as_str(), name) {
                return Some(i);
            }
            i = i + 1;
        }
        None
    }

    /// Whether `name` is there.
    pub fn contains_key(&self, name: &str) -> (b: bool)
        ensures
            b == self@.contains_key(name@),
    {
        self.position(name).is_some()
    }

    /// The item under `name`.
    pub fn get(&self, name: &str) -> (item: Option<&T>)
        ensures
            match item {
                Some(found) => self@.contains_key(name@) && *found == self@[name@],
                None => !self@.contains_key(name@),
            },
    {
        match self.position(name) {
            Some(i) => {
                proof {
                    self.names().index_of_first_ensures(name@);
                    let k = self.names().index_of(name@);
                    assert(self.names()[k] == self.names()[i as int]);
                }
                Some(&self.entries[i].1)
            },
            None => None,
        }
    }

    /// The name at index `i`.
    pub fn name_at(&self, i: usize) -> (name: &str)
        requires
            i < self.names().len(),
        ensures
            name@ == self.names()[i as int],
    {
        self.entries[i].0.as_str()
    }

    /// The item at index `i`.
    pub fn item_at(&self, i: usize) -> (item: &T)
        requires
            i < self.names().len(),
        ensures
            *item == self.items()[i as int],
    {
        &self.entries[i].1
    }

    /// Puts `item` under `name`. A name that is there already keeps its
    /// place and gets the new item; a new name goes to the end.
    pub fn insert(&mut self, name: String, item: T)
        ensures
            final(self)@ == old(self)@.insert(name@, item),
            final(self).well_formed(),
            old(self).names().contains(name@) ==> final(self).names() == old(self).names()
                && final(self).items() == old(self).items().update(
                old(self).names().index_of(name@),
                item,
            ),
            !old(self).names().contains(name@) ==> final(self).names() == old(self).names().push(
                name@,
            ) && final(self).items() == old(self).items().push(item),
    {
        proof {
            use_type_invariant(&*self);
        }
        let at = self.position(name.as_str());
        let ghost key = name@;
        let mut taken = NameMap::new();
        core::mem::swap(self, &mut taken);
        let mut entries = taken.entries;
        assert(entries@ == old(self).entries@);
        assert forall|j: int| 0 <= j < entries@.len() implies (#[trigger] entries@[j]).0@
            == old(self).names()[j] by {}
        match at {
            Some(i) => {
                entries.set(i, (name, item));
                *self = NameMap { entries };
                proof {
                    old(self).names().index_of_first_ensures(key);
                    assert(old(self).names().index_of(key) == i);
                    assert(self.names() =~= old(self).names());
                    assert(self.items() =~= old(self).items().update(i as int, item));
                    lemma_view_update(*old(self), *self, i as int, item);
                }
            },
            None => {
                entries.push((name, item));
                assert forall|a: int, b: int| 0 <= a < b < entries@.len() implies entries@[a].0@
                    != entries@[b].0@ by {
                    if b == entries@.len() - 1 {
                        assert(old(self).names()[a] == entries@[a].0@);
                        assert(old(self).names().contains(entries@[a].0@));
                    }
                }
                *self = NameMap { entries };
                proof {
                    assert(self.names() =~= old(self).names().push(key));
                    assert(self.items() =~= old(self).items().push(item));
                    lemma_view_push(*old(self), *self, key, item);
                }
            },
        }
    }

    /// The names with their items, in order.
    pub fn into_entries(self) -> (entries: Vec<(String, T)>)
        ensures
            entries@.len() == self.names().len(),
            forall|i: int|
                0 <= i < entries@.len() ==> (#[trigger] entries@[i]).0@ == self.names()[i]
                    && entries@[i].1 == self.items()[i],
    {
        self.entries
    }
}

/// Replacing the item at the index of a name is inserting under that name.
pub proof fn lemma_view_update<T>(before: NameMap<T>, after: NameMap<T>, at: int, item: T)
    requires
        before.well_formed(),
        0 <= at < before.names().len(),
        after.names() == before.names(),
        after.items() == before.items().update(at, item),
    ensures
        after@ == before@.insert(before.names()[at], item),
{
    let key = before.names()[at];
    assert forall|name: Seq<char>| #[trigger] after@.dom().contains(name) implies after@[name]
        == before@.insert(key, item)[name] by {
        before.names().index_of_first_ensures(name);
        let k = before.names().index_of(name);
        assert(before.names()[k] == name);
        if name == key {
            assert(k == at);
        }
    }
    assert(after@.dom() =~= before@.insert(key, item).dom());
    assert(after@ =~= before@.insert(key, item));
}

/// Adding a new name at the end is inserting under that name.
pub proof fn lemma_view_push<T>(before: NameMap<T>, after: NameMap<T>, key: Seq<char>, item: T)
    requires
        before.well_formed(),
        !before.names().contains(key),
        after.names() == before.names().push(key),
        after.items() == before.items().push(item),
    ensures
        after@ == before@.insert(key, item),
        after.well_formed(),
{
    let n = before.names().len() as int;
    assert(after.names()[n] == key);
    assert forall|name: Seq<char>| after@.dom().contains(name) <==> before@.insert(
        key,
        item,
    ).dom().contains(name) by {
        if before.names().contains(name) {
            let k = before.names().index_of(name);
            before.names().index_of_first_ensures(name);
            assert(after.names()[k] == name);
        }
        if after.names().contains(name) && name != key {
            let k = after.names().index_of(name);
            after.names().index_of_first_ensures(name);
            assert(k < n);
            assert(before.names()[k] == name);
        }
    }
    assert forall|i: int, j: int| 0 <= i < j < after.names().len() implies after.names()[i]
        != after.names()[j] by {
        if j < n {
            assert(before.names()[i] != before.names()[j]);
        } else {
            assert(before.names()[i] == after.names()[i]);
            assert(before.names().contains(after.names()[i]));
        }
    }
    assert forall|name: Seq<char>| #[trigger] after@.dom().contains(name) implies after@[name]
        == before@.insert(key, item)[name] by {
        after.names().index_of_first_ensures(name);
        let k = after.names().index_of(name);
        assert(after.names()[k] == name);
        if name == key {
            assert(k == n);
        } else {
            assert(k < n);
            assert(before.names()[k] == name);
            before.names().index_of_first_ensures(name);
            assert(before.names().index_of(name) == k);
        }
    }
    assert(after@.dom() =~= before@.insert(key, item).dom());
    assert(after@ =~= before@.insert(key, item));
}

/// Inserting under a name a second time replaces what the first put there,
/// and adds no name.
pub proof fn lemma_insert_again<T>(found: Map<Seq<char>, T>, name: Seq<char>, first: T, second: T)
    ensures
        found.insert(name, first).insert(name, second) == found.insert(name, second),
        found.insert(name, first).insert(name, second).dom() == found.insert(name, first).dom(),
        found.insert(name, first).insert(name, second)[name] == second,
{
    assert(found.insert(name, first).insert(name, second) =~= found.insert(name, second));
    assert(found.insert(name, first).insert(name, second).dom() =~= found.insert(name, first).dom());
}

/// The names of `keys` in the order in which each is first seen.
pub open spec fn first_seen(keys: Seq<Seq<char>>) -> Seq<Seq<char>>
    decreases keys.len(),
{
    if keys.len() == 0 {
        Seq::empty()
    } else if first_seen(keys.drop_last()).contains(keys.last()) {
        first_seen(keys.drop_last())
    } else {
        first_seen(keys.drop_last()).push(keys.last())
    }
}

/// `first_seen` holds every key once.
pub proof fn lemma_first_seen(keys: Seq<Seq<char>>)
    ensures
        first_seen(keys).no_duplicates(),
        first_seen(keys).to_set() == keys.to_set(),
    decreases keys.len(),
{
    if keys.len() == 0 {
        assert(first_seen(keys).to_set() =~= keys.to_set());
    } else {
        let front = keys.drop_last();
        lemma_first_seen(front);
        let seen = first_seen(front);
        assert forall|k: Seq<char>| keys.to_set().contains(k) <==> (front.to_set().contains(k) || k
            == keys.last()) by {
            if keys.contains(k) {
                let i = choose|i: int| 0 <= i < keys.len() && keys[i] == k;
                if i < keys.len() - 1 {
                    assert(front[i] == k);
                }
            }
            if front.contains(k) {
                let i = choose|i: int| 0 <= i < front.len() && front[i] == k;
                assert(keys[i] == k);
            }
            if k == keys.last() {
                assert(keys[keys.len() - 1] == k);
            }
        }
        if seen.contains(keys.last()) {
            assert(seen.to_set() =~= keys.to_set());
        } else {
            let all = seen.push(keys.last());
            assert forall|k: Seq<char>| all.to_set().contains(k) <==> (seen.to_set().contains(k)
                || k == keys.last()) by {
                if all.contains(k) {
                    let i = choose|i: int| 0 <= i < all.len() && all[i] == k;
                    if i < seen.len() {
                        assert(seen[i] == k);
                    }
                }
                if seen.contains(k) {
                    let i = choose|i: int| 0 <= i < seen.len() && seen[i] == k;
                    assert(all[i] == k);
                }
                if k == keys.last() {
                    assert(all[all.len() - 1] == k);
                }
            }
            assert(all.to_set() =~= keys.to_set());
            assert forall|i: int, j: int| 0 <= i < j < all.len() implies all[i] != all[j] by {
                if j == all.len() - 1 {
                    assert(seen[i] == all[i]);
                    assert(seen.contains(all[i]));
                }
            }
        }
    }
}

} // verus!
