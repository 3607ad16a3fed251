use vstd::prelude::*;

verus! {

/// Whether `i` is the first position of `key` in `keys`.
pub open spec fn is_first(keys: Seq<Seq<char>>, key: Seq<char>, i: int) -> bool {
    &&& 0 <= i < keys.len()
    &&& keys[i] == key
    &&& forall|j: int| 0 <= j < i ==> keys[j] != key
}

/// The first position of `key` in `keys`, where it occurs.
pub open spec fn position_in(keys: Seq<Seq<char>>, key: Seq<char>) -> Option<int> {
    if exists|i: int| is_first(keys, key, i) {
        Some(choose|i: int| is_first(keys, key, i))
    } else {
        None
    }
}

/// A first position exists for every key that occurs.
pub proof fn lemma_first_exists(keys: Seq<Seq<char>>, key: Seq<char>, w: int)
    requires
        0 <= w < keys.len(),
        keys[w] == key,
    ensures
        exists|i: int| is_first(keys, key, i),
    decreases w,
{
    if forall|j: int| 0 <= j < w ==> keys[j] != key {
        assert(is_first(keys, key, w));
    } else {
        let j = choose|j: int| 0 <= j < w && keys[j] == key;
        lemma_first_exists(keys, key, j);
    }
}

/// A key has no position exactly when it does not occur, and its position is
/// its first occurrence.
pub proof fn lemma_position_in(keys: Seq<Seq<char>>, key: Seq<char>)
    ensures
        position_in(keys, key) is None <==> !keys.contains(key),
        position_in(keys, key) matches Some(i) ==> is_first(keys, key, i),
{
    if keys.contains(key) {
        let w = choose|i: int| 0 <= i < keys.len() && keys[i] == key;
        lemma_first_exists(keys, key, w);
    }
}

/// The position of a key is the only first position that it has.
pub proof fn lemma_first_is_position(keys: Seq<Seq<char>>, key: Seq<char>, i: int)
    requires
        is_first(keys, key, i),
    ensures
        position_in(keys, key) == Some(i),
{
    let j = choose|j: int| is_first(keys, key, j);
    assert(is_first(keys, key, j));
    if j < i {
        assert(keys[j] != key);
    } else if i < j {
        assert(keys[i] != key);
    }
}

/// A map from text keys to values that remembers the order in which its keys
/// first arrived. A key is found at its first position, and `insert` replaces
/// there, so a dictionary built by `new` and `insert` never holds a key twice.
#[derive(Clone)]
pub struct Dictionary<V> {
    entries: Vec<(String, V)>,
}

impl<V> Dictionary<V> {
    /// The keys, in order of first insertion.
    pub closed spec fn keys(&self) -> Seq<Seq<char>> {
        Seq::new(self.entries@.len(), |i: int| self.entries@[i].0@)
    }

    /// The values, each at the position of its key.
    pub closed spec fn values(&self) -> Seq<V> {
        Seq::new(self.entries@.len(), |i: int| self.entries@[i].1)
    }

    /// No key occurs twice.
    pub open spec fn distinct(&self) -> bool {
        self.keys().no_duplicates()
    }

    /// The position at which `key` is found, where it is present.
    pub open spec fn position(&self, key: Seq<char>) -> Option<int> {
        position_in(self.keys(), key)
    }

    /// The value stored under `key`, where there is one.
    pub open spec fn lookup(&self, key: Seq<char>) -> Option<V> {
        match self.position(key) {
            Some(i) => Some(self.values()[i]),
            None => None,
        }
    }

    /// The dictionary as a plain map.
    pub open spec fn view(&self) -> Map<Seq<char>, V> {
        Map::new(|k: Seq<char>| self.lookup(k) is Some, |k: Seq<char>| self.lookup(k)->0)
    }

    /// Keys and values come in pairs.
    pub proof fn lemma_paired(&self)
        ensures
            self.keys().len() == self.values().len(),
    {
    }

    /// Storing a value under a key changes the dictionary as it changes a
    /// map: the key then leads to the value, every other key to what it led
    /// to before.
    pub proof fn lemma_insert_view(before: Self, after: Self, key: Seq<char>, value: V)
        requires
            match before.position(key) {
                Some(i) => after.keys() == before.keys() && after.values()
                    == before.values().update(i, value),
                None => after.keys() == before.keys().push(key) && after.values()
                    == before.values().push(value),
            },
        ensures
            after@ == before@.insert(key, value),
    {
        before.lemma_paired();
        after.lemma_paired();
        lemma_position_in(before.keys(), key);
        assert forall|k: Seq<char>| after.lookup(k) == (if k == key {
            Some(value)
        } else {
            before.lookup(k)
        }) by {
            lemma_position_in(before.keys(), k);
            lemma_position_in(after.keys(), k);
            match before.position(key) {
                Some(i) => {},
                None => {
                    if k == key {
                        assert(is_first(after.keys(), key, before.keys().len() as int));
                        lemma_first_is_position(after.keys(), key, before.keys().len() as int);
                    } else {
                        match before.position(k) {
                            Some(j) => {
                                assert(is_first(after.keys(), k, j));
                                lemma_first_is_position(after.keys(), k, j);
                            },
                            None => {
                                assert(!after.keys().contains(k)) by {
                                    if after.keys().contains(k) {
                                        let w = choose|w: int|
                                            0 <= w < after.keys().len() && after.keys()[w] == k;
                                        if w < before.keys().len() {
                                            assert(before.keys()[w] == k);
                                        }
                                    }
                                }
                            },
                        }
                    }
                },
            }
        }
        assert(after@ =~= before@.insert(key, value));
    }

    /// An empty dictionary.
    pub fn new() -> (d: Self)
        ensures
            d.keys() == Seq::<Seq<char>>::empty(),
            d.values() == Seq::<V>::empty(),
            d.distinct(),
            d@ == Map::<Seq<char>, V>::empty(),
    {
        let d = Dictionary { entries: Vec::new() };
        assert(d.keys() =~= Seq::<Seq<char>>::empty());
        assert(d.values() =~= Seq::<V>::empty());
        assert(d@ =~= Map::<Seq<char>, V>::empty());
        d
    }

    /// The dictionary of `entries` as they stand, in their order.
    pub fn from_entries(entries: Vec<(String, V)>) -> (d: Self)
        ensures
            d.keys() == Seq::new(entries@.len(), |i: int| entries@[i].0@),
            d.values() == Seq::new(entries@.len(), |i: int| entries@[i].1),
    {
        Dictionary { entries }
    }

    /// The number of entries.
    pub fn len(&self) -> (n: usize)
        ensures
            n == self.keys().len(),
            n == self.values().len(),
    {
        self.entries.len()
    }

    /// The key at position `i`.
    pub fn key_at(&self, i: usize) -> (k: &String)
        requires
            i < self.keys().len(),
        ensures
            k@ == self.keys()[i as int],
    {
        &self.entries[i].0
    }

    /// The value at position `i`.
    pub fn value_at(&self, i: usize) -> (v: &V)
        requires
            i < self.values().len(),
        ensures
            *v == self.values()[i as int],
    {
        &self.entries[i].1
    }

    /// The position of `key`, by a scan from the front.
    pub fn find(&self, key: &String) -> (r: Option<usize>)
        ensures
            match r {
                Some(i) => self.position(key@) == Some(i as int) && is_first(
                    self.keys(),
                    key@,
                    i as int,
                ),
                None => self.position(key@) is None && !self.keys().contains(key@),
            },
    {
        let mut i: usize = 0;
        while i < self.entries.len()
            invariant
                i <= self.entries@.len(),
                forall|j: int| 0 <= j < i ==> self.keys()[j] != key@,
            decreases self.entries@.len() - i,
        {
            if self.entries[i].0 == *key {
                proof {
                    assert(is_first(self.keys(), key@, i as int));
                }
                return Some(i);
            }
            i += 1;
        }
        None
    }

    /// The value under `key`.
    pub fn get(&self, key: &String) -> (r: Option<&V>)
        ensures
            match r {
                Some(v) => self.lookup(key@) == Some(*v) && self@.contains_key(key@) && self@[key@]
                    == *v,
                None => self.lookup(key@) is None && !self@.contains_key(key@),
            },
    {
        match self.find(key) {
            Some(i) => Some(&self.entries[i].1),
            None => None,
        }
    }

    /// Stores `value` under `key`: in place where the key is present, at the
    /// end where it is new.
    pub fn insert(&mut self, key: String, value: V)
        ensures
            match old(self).position(key@) {
                Some(i) => final(self).keys() == old(self).keys() && final(self).values() == old(self).values().update(i, value),
                None => final(self).keys() == old(self).keys().push(key@) && final(self).values()
                    == old(self).values().push(value),
            },
            old(self).distinct() ==> final(self).distinct(),
            final(self)@ == old(self)@.insert(key@, value),
    {
        let ghost before = *self;
        match self.find(&key) {
            Some(i) => {
                self.entries.set(i, (key, value));
                assert(self.keys() =~= old(self).keys());
                assert(self.values() =~= old(self).values().update(i as int, value));
            },
            None => {
                self.entries.push((key, value));
                assert(self.keys() =~= old(self).keys().push(key@));
                assert(self.values() =~= old(self).values().push(value));
            },
        }
        proof {
            Self::lemma_insert_view(before, *self, key@, value);
        }
    }

    /// Drops every entry but the one under `key`.
    pub fn retain_key(&mut self, key: &String)
        ensures
            match old(self).lookup(key@) {
                Some(v) => final(self).keys() == seq![key@] && final(self).values() == seq![v],
                None => final(self).keys() == Seq::<Seq<char>>::empty() && final(self).values()
                    == Seq::<V>::empty(),
            },
            final(self).distinct(),
            final(self)@ == match old(self).lookup(key@) {
                Some(v) => Map::<Seq<char>, V>::empty().insert(key@, v),
                None => Map::<Seq<char>, V>::empty(),
            },
    {
        let mut kept: Vec<(String, V)> = Vec::new();
        match self.find(key) {
            Some(i) => {
                let entry = self.entries.swap_remove(i);
                kept.push(entry);
            },
            None => {},
        }
        self.entries = kept;
        proof {
            match old(self).lookup(key@) {
                Some(v) => {
                    assert(self.keys() =~= seq![key@]);
                    assert(self.values() =~= seq![v]);
                    assert forall|k: Seq<char>| self.lookup(k) == (if k == key@ {
                        Some(v)
                    } else {
                        None::<V>
                    }) by {
                        lemma_position_in(self.keys(), k);
                        if k == key@ {
                            assert(is_first(self.keys(), k, 0));
                            lemma_first_is_position(self.keys(), k, 0);
                        }
                    }
                    assert(self@ =~= Map::<Seq<char>, V>::empty().insert(key@, v));
                },
                None => {
                    assert(self.keys() =~= Seq::<Seq<char>>::empty());
                    assert(self.values() =~= Seq::<V>::empty());
                    assert(self@ =~= Map::<Seq<char>, V>::empty());
                },
            }
        }
    }
}

} // verus!
