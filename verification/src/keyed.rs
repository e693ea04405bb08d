//! Association lists over text keys, viewed as mathematical maps and sets.
use vstd::prelude::*;

use crate::text::same_text;
use crate::value::Value;

verus! {

/// A key whose first text names the connection profile that owns the entry.
pub trait Key: Value {
    /// The profile that owns an entry under this key.
    spec fn owner_of(key: Self::V) -> Seq<char>;

    fn owner(&self) -> (owner: &str)
        ensures
            owner@ == Self::owner_of(self.deep_view()),
    ;
}

impl Key for String {
    open spec fn owner_of(key: Seq<char>) -> Seq<char> {
        key
    }

    fn owner(&self) -> (owner: &str) {
        self.as_str()
    }
}

impl Key for (String, String) {
    open spec fn owner_of(key: (Seq<char>, Seq<char>)) -> Seq<char> {
        key.0
    }

    fn owner(&self) -> (owner: &str) {
        self.0.as_str()
    }
}

impl Key for (String, String, String) {
    open spec fn owner_of(key: (Seq<char>, Seq<char>, Seq<char>)) -> Seq<char> {
        key.0
    }

    fn owner(&self) -> (owner: &str) {
        self.0.as_str()
    }
}

/// Whether some entry has the key.
pub open spec fn has_key<A, B>(entries: Seq<(A, B)>, key: A) -> bool {
    exists|i: int| 0 <= i < entries.len() && (#[trigger] entries[i]).0 == key
}

/// The position of an entry with the key.
pub open spec fn key_index<A, B>(entries: Seq<(A, B)>, key: A) -> int {
    choose|i: int| 0 <= i < entries.len() && (#[trigger] entries[i]).0 == key
}

/// The map that a list of entries with distinct keys denotes.
pub open spec fn map_of<A, B>(entries: Seq<(A, B)>) -> Map<A, B> {
    Map::new(|key: A| has_key(entries, key), |key: A| entries[key_index(entries, key)].1)
}

/// Whether no key occurs twice.
pub open spec fn distinct_keys<A, B>(entries: Seq<(A, B)>) -> bool {
    forall|i: int, j: int|
        0 <= i < entries.len() && 0 <= j < entries.len() && (#[trigger] entries[i]).0 == (
        #[trigger] entries[j]).0 ==> i == j
}

proof fn lemma_map_of_entry<A, B>(entries: Seq<(A, B)>, i: int)
    requires
        distinct_keys(entries),
        0 <= i < entries.len(),
    ensures
        map_of(entries).contains_key(entries[i].0),
        map_of(entries)[entries[i].0] == entries[i].1,
{
    assert(has_key(entries, entries[i].0));
}

/// A map from keys to values, kept as a list in which no key occurs twice.
pub struct KeyedMap<K: Key, T: DeepView> {
    entries: Vec<(K, T)>,
}

impl<K: Key, T: DeepView> View for KeyedMap<K, T> {
    type V = Map<K::V, T::V>;

    closed spec fn view(&self) -> Map<K::V, T::V> {
        map_of(self.entries.deep_view())
    }
}

impl<K: Key, T: DeepView> DeepView for KeyedMap<K, T> {
    type V = Map<K::V, T::V>;

    open spec fn deep_view(&self) -> Map<K::V, T::V> {
        self@
    }
}

impl<K: Key, T: DeepView> KeyedMap<K, T> {
    #[verifier::type_invariant]
    closed spec fn distinct(self) -> bool {
        distinct_keys(self.entries.deep_view())
    }

    /// The keys, each once, in the order in which the entries are kept.
    pub closed spec fn keys(&self) -> Seq<K::V> {
        Seq::new(self.entries@.len(), |i: int| self.entries@[i].0.deep_view())
    }

    /// Creates an empty map.
    pub fn new() -> (map: Self)
        ensures
            map@ == Map::<K::V, T::V>::empty(),
            map.keys().len() == 0,
    {
        let map = KeyedMap { entries: Vec::new() };
        assert(map@ =~= Map::<K::V, T::V>::empty());
        map
    }

    fn find(&self, key: &K) -> (index: Option<usize>)
        ensures
            match index {
                Some(i) => i < self.entries@.len() && self.entries@[i as int].0.deep_view()
                    == key.deep_view() && self@.contains_key(key.deep_view())
                    && self@[key.deep_view()] == self.entries@[i as int].1.deep_view(),
                None => !self@.contains_key(key.deep_view()),
            },
    {
        proof {
            use_type_invariant(self);
        }
        let ghost all = self.entries.deep_view();
        let mut i: usize = 0;
        while i < self.entries.len()
            invariant
                i <= self.entries@.len(),
                all == self.entries.deep_view(),
                distinct_keys(all),
                forall|k: int| 0 <= k < i ==> (#[trigger] all[k]).0 != key.deep_view(),
            decreases self.entries@.len() - i,
        {
            assert(all[i as int] == self.entries@[i as int].deep_view());
            if self.entries[i].0.same(key) {
                proof {
                    lemma_map_of_entry(all, i as int);
                }
                return Some(i);
            }
            i += 1;
        }
        None
    }

    /// The number of entries.
    pub fn len(&self) -> (count: usize)
        ensures
            count == self.keys().len(),
            self.keys().no_duplicates(),
    {
        proof {
            use_type_invariant(self);
            let all = self.entries.deep_view();
            assert forall|i: int, j: int|
                0 <= i < self.keys().len() && 0 <= j < self.keys().len() && i
                    != j implies self.keys()[i] != self.keys()[j] by {
                assert(all[i].0 == self.keys()[i]);
                assert(all[j].0 == self.keys()[j]);
            }
        }
        self.entries.len()
    }

    /// Whether the map holds the key.
    pub fn contains(&self, key: &K) -> (result: bool)
        ensures
            result == self@.contains_key(key.deep_view()),
    {
        match self.find(key) {
            Some(_) => true,
            None => false,
        }
    }

    /// The value under the key.
    pub fn get(&self, key: &K) -> (value: Option<&T>)
        ensures
            match value {
                Some(found) => self@.contains_key(key.deep_view()) && found.deep_view()
                    == self@[key.deep_view()],
                None => !self@.contains_key(key.deep_view()),
            },
    {
        match self.find(key) {
            Some(i) => Some(&self.entries[i].1),
            None => None,
        }
    }

    /// The key at a position.
    pub fn key_at(&self, index: usize) -> (key: &K)
        requires
            index < self.keys().len(),
        ensures
            key.deep_view() == self.keys()[index as int],
            self@.contains_key(key.deep_view()),
    {
        proof {
            use_type_invariant(self);
            lemma_map_of_entry(self.entries.deep_view(), index as int);
        }
        &self.entries[index].0
    }

    /// The value at a position.
    pub fn value_at(&self, index: usize) -> (value: &T)
        requires
            index < self.keys().len(),
        ensures
            self@.contains_key(self.keys()[index as int]),
            value.deep_view() == self@[self.keys()[index as int]],
    {
        proof {
            use_type_invariant(self);
            lemma_map_of_entry(self.entries.deep_view(), index as int);
        }
        &self.entries[index].1
    }

    /// Every key of the map stands in `keys`.
    pub proof fn lemma_keys(&self)
        ensures
            forall|key: K::V| #[trigger] self@.contains_key(key) ==> self.keys().contains(key),
    {
        assert forall|key: K::V| #[trigger] self@.contains_key(key) implies self.keys().contains(
            key,
        ) by {
            let all = self.entries.deep_view();
            let i = key_index(all, key);
            assert(has_key(all, key));
            assert(self.keys()[i] == key);
        }
    }

    /// Puts a value under a key, in place of the value that was there.
    pub fn insert(&mut self, key: K, value: T)
        ensures
            final(self)@ == old(self)@.insert(key.deep_view(), value.deep_view()),
    {
        let found = self.find(&key);
        proof {
            use_type_invariant(&*self);
        }
        let mut entries: Vec<(K, T)> = Vec::new();
        std::mem::swap(&mut entries, &mut self.entries);
        let ghost before = entries.deep_view();
        let ghost entry = (key.deep_view(), value.deep_view());
        match found {
            Some(i) => {
                entries[i] = (key, value);
                proof {
                    let after = entries.deep_view();
                    assert(after =~= before.update(i as int, entry));
                    assert forall|k: K::V| has_key(after, k) == has_key(before, k) by {
                        if has_key(before, k) {
                            assert(after[key_index(before, k)].0 == k);
                        }
                        if has_key(after, k) {
                            assert(before[key_index(after, k)].0 == k);
                        }
                    }
                    assert(distinct_keys(after)) by {
                        assert forall|a: int, b: int|
                            0 <= a < after.len() && 0 <= b < after.len() && (
                            #[trigger] after[a]).0 == (#[trigger] after[b]).0 implies a == b by {
                            assert(before[a].0 == before[b].0);
                        }
                    }
                    assert forall|k: K::V| has_key(after, k) implies map_of(after)[k] == map_of(
                        before,
                    ).insert(entry.0, entry.1)[k] by {
                        let a = key_index(after, k);
                        lemma_map_of_entry(after, a);
                        lemma_map_of_entry(before, a);
                        assert(before[a].0 == k);
                        if k == entry.0 {
                            assert(before[i as int].0 == k);
                        }
                    }
                    assert(map_of(after) =~= map_of(before).insert(entry.0, entry.1));
                }
            },
            None => {
                entries.push((key, value));
                proof {
                    let after = entries.deep_view();
                    assert(after =~= before.push(entry));
                    assert forall|k: K::V| has_key(after, k) == (has_key(before, k) || k
                        == entry.0) by {
                        if has_key(before, k) {
                            assert(after[key_index(before, k)].0 == k);
                        }
                        if k == entry.0 {
                            assert(after[before.len() as int].0 == k);
                        }
                        if has_key(after, k) && k != entry.0 {
                            assert(before[key_index(after, k)].0 == k);
                        }
                    }
                    assert(distinct_keys(after)) by {
                        assert forall|a: int, b: int|
                            0 <= a < after.len() && 0 <= b < after.len() && (
                            #[trigger] after[a]).0 == (#[trigger] after[b]).0 implies a == b by {
                            if a < before.len() && b < before.len() {
                                assert(before[a].0 == before[b].0);
                            } else if a < before.len() {
                                assert(has_key(before, before[a].0));
                            } else if b < before.len() {
                                assert(has_key(before, before[b].0));
                            }
                        }
                    }
                    assert forall|k: K::V| has_key(after, k) implies map_of(after)[k] == map_of(
                        before,
                    ).insert(entry.0, entry.1)[k] by {
                        let a = key_index(after, k);
                        lemma_map_of_entry(after, a);
                        if a < before.len() {
                            lemma_map_of_entry(before, a);
                            assert(before[a].0 == k);
                            assert(has_key(before, k));
                        }
                    }
                    assert(map_of(after) =~= map_of(before).insert(entry.0, entry.1));
                }
            },
        }
        self.entries = entries;
    }

    /// Takes the value under a key out of the map.
    pub fn remove(&mut self, key: &K) -> (value: Option<T>)
        ensures
            final(self)@ == old(self)@.remove(key.deep_view()),
            match value {
                Some(found) => old(self)@.contains_key(key.deep_view()) && found.deep_view()
                    == old(self)@[key.deep_view()],
                None => !old(self)@.contains_key(key.deep_view()),
            },
    {
        let found = self.find(key);
        proof {
            use_type_invariant(&*self);
        }
        match found {
            Some(i) => {
                let mut entries: Vec<(K, T)> = Vec::new();
                std::mem::swap(&mut entries, &mut self.entries);
                let ghost before = entries.deep_view();
                let ghost gone = key.deep_view();
                let (_, value) = entries.remove(i);
                proof {
                    let after = entries.deep_view();
                    assert(after =~= before.remove(i as int));
                    assert(before[i as int].0 == gone);
                    lemma_removed(before, i as int);
                }
                self.entries = entries;
                Some(value)
            },
            None => {
                assert(self@.remove(key.deep_view()) =~= self@);
                None
            },
        }
    }

    /// Exchanges the value at a position with another one.
    pub fn exchange(&mut self, index: usize, value: &mut T)
        requires
            index < old(self).keys().len(),
        ensures
            final(self).keys() == old(self).keys(),
            final(self)@ == old(self)@.insert(
                old(self).keys()[index as int],
                old(value).deep_view(),
            ),
            old(self)@.contains_key(old(self).keys()[index as int]),
            final(value).deep_view() == old(self)@[old(self).keys()[index as int]],
    {
        proof {
            use_type_invariant(&*self);
        }
        let mut entries: Vec<(K, T)> = Vec::new();
        std::mem::swap(&mut entries, &mut self.entries);
        let ghost before = entries.deep_view();
        let ghost key = before[index as int].0;
        let ghost put = value.deep_view();
        proof {
            lemma_map_of_entry(before, index as int);
        }
        std::mem::swap(value, &mut entries[index].1);
        proof {
            let after = entries.deep_view();
            assert(after =~= before.update(index as int, (key, put)));
            assert forall|k: K::V| has_key(after, k) == has_key(before, k) by {
                if has_key(before, k) {
                    assert(after[key_index(before, k)].0 == k);
                }
                if has_key(after, k) {
                    assert(before[key_index(after, k)].0 == k);
                }
            }
            assert(distinct_keys(after)) by {
                assert forall|a: int, b: int|
                    0 <= a < after.len() && 0 <= b < after.len() && (#[trigger] after[a]).0 == (
                    #[trigger] after[b]).0 implies a == b by {
                    assert(before[a].0 == before[b].0);
                }
            }
            assert forall|k: K::V| has_key(after, k) implies map_of(after)[k] == map_of(
                before,
            ).insert(key, put)[k] by {
                let a = key_index(after, k);
                lemma_map_of_entry(after, a);
                lemma_map_of_entry(before, a);
                assert(before[a].0 == k);
            }
            assert(map_of(after) =~= map_of(before).insert(key, put));
        }
        self.entries = entries;
        proof {
            assert(self.keys() =~= old(self).keys());
        }
    }

    /// Drops every entry whose key belongs to `owner`.
    pub fn forget_owner(&mut self, owner: &str)
        ensures
            final(self)@ == without_owner::<K, T::V>(old(self)@, owner@),
    {
        let mut kept = KeyedMap::new();
        let ghost original = self@;
        let ghost mut done = Set::<K::V>::empty();
        let ghost all = self.keys();
        proof {
            self.lemma_keys();
            assert(kept@ =~= without_owner::<K, T::V>(original, owner@).restrict(done));
        }
        while self.entries.len() > 0
            invariant
                kept@ == without_owner::<K, T::V>(original, owner@).restrict(done),
                forall|k: K::V| #[trigger] self@.contains_key(k) ==> !done.contains(k),
                forall|k: K::V| #[trigger] original.contains_key(k) <==> self@.contains_key(k) || (
                done.contains(k) && original.contains_key(k)),
                forall|k: K::V| #[trigger] self@.contains_key(k) ==> self@[k] == original[k],
            decreases self.entries@.len(),
        {
            proof {
                use_type_invariant(&*self);
            }
            let mut entries: Vec<(K, T)> = Vec::new();
            std::mem::swap(&mut entries, &mut self.entries);
            let ghost before = entries.deep_view();
            let ghost last = (before.len() - 1) as int;
            match entries.pop() {
                Some((key, value)) => {
                    let ghost k = key.deep_view();
                    proof {
                        lemma_map_of_entry(before, last);
                        assert(entries.deep_view() =~= before.remove(last));
                        lemma_removed(before, last);
                        assert(before[last] == (k, value.deep_view()));
                        assert(original.contains_key(k));
                        done = done.insert(k);
                    }
                    self.entries = entries;
                    let ghost old_kept = kept@;
                    if !same_text(key.owner(), owner) {
                        kept.insert(key, value);
                    }
                    proof {
                        assert(kept@ =~= without_owner::<K, T::V>(original, owner@).restrict(
                            done,
                        ));
                    }
                },
                None => {
                    self.entries = entries;
                },
            }
        }
        proof {
            assert(kept@ =~= without_owner::<K, T::V>(original, owner@)) by {
                assert forall|k: K::V| #[trigger] original.contains_key(k) implies done.contains(
                    k,
                ) by {
                    if self@.contains_key(k) {
                        assert(has_key(self.entries.deep_view(), k));
                    }
                }
            }
        }
        let mut entries: Vec<(K, T)> = Vec::new();
        proof {
            use_type_invariant(&kept);
        }
        std::mem::swap(&mut entries, &mut kept.entries);
        self.entries = entries;
    }
}

/// The entries whose key does not belong to `owner`.
pub open spec fn without_owner<K: Key, W>(map: Map<K::V, W>, owner: Seq<char>) -> Map<K::V, W> {
    Map::new(
        |key: K::V| map.contains_key(key) && K::owner_of(key) != owner,
        |key: K::V| map[key],
    )
}

proof fn lemma_removed<A, B>(before: Seq<(A, B)>, i: int)
    requires
        distinct_keys(before),
        0 <= i < before.len(),
    ensures
        distinct_keys(before.remove(i)),
        map_of(before.remove(i)) == map_of(before).remove(before[i].0),
{
    let after = before.remove(i);
    let gone = before[i].0;
    assert forall|a: int, b: int|
        0 <= a < after.len() && 0 <= b < after.len() && (#[trigger] after[a]).0 == (
        #[trigger] after[b]).0 implies a == b by {
        let x = if a < i { a } else { a + 1 };
        let y = if b < i { b } else { b + 1 };
        assert(before[x].0 == before[y].0);
    }
    assert forall|k: A| has_key(after, k) == (has_key(before, k) && k != gone) by {
        if has_key(after, k) {
            let a = key_index(after, k);
            let x = if a < i { a } else { a + 1 };
            assert(before[x].0 == k);
            if k == gone {
                assert(before[i].0 == k);
            }
        }
        if has_key(before, k) && k != gone {
            let x = key_index(before, k);
            let a = if x < i { x } else { x - 1 };
            assert(after[a].0 == k);
        }
    }
    assert forall|k: A| has_key(after, k) implies map_of(after)[k] == map_of(before)[k] by {
        let a = key_index(after, k);
        let x = if a < i { a } else { a + 1 };
        lemma_map_of_entry(after, a);
        lemma_map_of_entry(before, x);
        assert(before[x].0 == k);
    }
    assert(map_of(after) =~= map_of(before).remove(gone));
}

/// A set of keys.
pub struct KeyedSet<K: Key> {
    items: KeyedMap<K, ()>,
}

impl<K: Key> View for KeyedSet<K> {
    type V = Set<K::V>;

    closed spec fn view(&self) -> Set<K::V> {
        self.items@.dom()
    }
}

impl<K: Key> KeyedSet<K> {
    /// Creates an empty set.
    pub fn new() -> (set: Self)
        ensures
            set@ == Set::<K::V>::empty(),
    {
        let set = KeyedSet { items: KeyedMap::new() };
        assert(set@ =~= Set::<K::V>::empty());
        set
    }

    /// Whether the set holds the key.
    pub fn contains(&self, key: &K) -> (result: bool)
        ensures
            result == self@.contains(key.deep_view()),
    {
        self.items.contains(key)
    }

    /// Adds a key.
    pub fn insert(&mut self, key: K)
        ensures
            final(self)@ == old(self)@.insert(key.deep_view()),
    {
        self.items.insert(key, ());
        assert(self@ =~= old(self)@.insert(key.deep_view()));
    }

    /// Takes a key out, and says whether it was there.
    pub fn remove(&mut self, key: &K) -> (present: bool)
        ensures
            final(self)@ == old(self)@.remove(key.deep_view()),
            present == old(self)@.contains(key.deep_view()),
    {
        let removed = self.items.remove(key);
        assert(self@ =~= old(self)@.remove(key.deep_view()));
        match removed {
            Some(_) => true,
            None => false,
        }
    }
}

} // verus!
