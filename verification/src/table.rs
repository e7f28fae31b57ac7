use vstd::prelude::*;

verus! {

/// A key of a [`Table`]: a plain value that can be told apart from another at
/// run time exactly as `==` tells them apart in specifications.
pub trait Key: Copy {
    fn same(&self, other: &Self) -> (r: bool)
        ensures
            r == (*self == *other),
    ;
}

/// One record of a table.
pub struct Entry<K, V> {
    pub key: K,
    pub value: V,
}

/// No key occurs twice in `s`.
pub open spec fn unique_keys<K, V>(s: Seq<Entry<K, V>>) -> bool {
    forall|i: int, j: int| 0 <= i < j < s.len() ==> s[i].key != s[j].key
}

/// The map that a sequence of records stands for.
pub open spec fn as_map<K, V>(s: Seq<Entry<K, V>>) -> Map<K, V>
    decreases s.len(),
{
    if s.len() == 0 {
        Map::empty()
    } else {
        as_map(s.drop_last()).insert(s.last().key, s.last().value)
    }
}

proof fn lemma_as_map_finite<K, V>(s: Seq<Entry<K, V>>)
    ensures
        as_map(s).dom().finite(),
    decreases s.len(),
{
    if s.len() > 0 {
        lemma_as_map_finite(s.drop_last());
    }
}

proof fn lemma_as_map_absent<K, V>(s: Seq<Entry<K, V>>, key: K)
    requires
        forall|j: int| 0 <= j < s.len() ==> s[j].key != key,
    ensures
        !as_map(s).contains_key(key),
    decreases s.len(),
{
    if s.len() > 0 {
        lemma_as_map_absent(s.drop_last(), key);
    }
}

proof fn lemma_as_map_present<K, V>(s: Seq<Entry<K, V>>, i: int)
    requires
        unique_keys(s),
        0 <= i < s.len(),
    ensures
        as_map(s).contains_key(s[i].key),
        as_map(s)[s[i].key] == s[i].value,
    decreases s.len(),
{
    if i < s.len() - 1 {
        lemma_as_map_present(s.drop_last(), i);
    }
}

proof fn lemma_as_map_update<K, V>(s: Seq<Entry<K, V>>, i: int, value: V)
    requires
        unique_keys(s),
        0 <= i < s.len(),
    ensures
        unique_keys(s.update(i, Entry { key: s[i].key, value })),
        as_map(s.update(i, Entry { key: s[i].key, value })) == as_map(s).insert(s[i].key, value),
    decreases s.len(),
{
    let key = s[i].key;
    let t = s.update(i, Entry { key, value });
    if i == s.len() - 1 {
        assert(t.drop_last() =~= s.drop_last());
        assert(as_map(t) =~= as_map(s).insert(key, value));
    } else {
        assert(t.drop_last() =~= s.drop_last().update(i, Entry { key, value }));
        lemma_as_map_update(s.drop_last(), i, value);
        assert(as_map(t) =~= as_map(s).insert(key, value));
    }
}

proof fn lemma_as_map_remove<K, V>(s: Seq<Entry<K, V>>, i: int)
    requires
        unique_keys(s),
        0 <= i < s.len(),
    ensures
        unique_keys(s.remove(i)),
        as_map(s.remove(i)) == as_map(s).remove(s[i].key),
    decreases s.len(),
{
    let key = s[i].key;
    let t = s.remove(i);
    if i == s.len() - 1 {
        assert(t =~= s.drop_last());
        lemma_as_map_absent(s.drop_last(), key);
        assert(as_map(t) =~= as_map(s).remove(key));
    } else {
        assert(t.drop_last() =~= s.drop_last().remove(i));
        lemma_as_map_remove(s.drop_last(), i);
        assert(as_map(t) =~= as_map(s).remove(key));
    }
}

/// A finite map from plain keys to plain values, held as a list of records in
/// which no key occurs twice.
pub struct Table<K, V> {
    entries: Vec<Entry<K, V>>,
}

impl<K: Key, V: Copy> Table<K, V> {
    /// No key occurs twice among the records.
    pub closed spec fn wf(&self) -> bool {
        unique_keys(self.entries@)
    }

    /// The map that the table holds.
    pub closed spec fn view(&self) -> Map<K, V> {
        as_map(self.entries@)
    }

    /// A table holds finitely many records.
    pub proof fn lemma_finite(&self)
        ensures
            self@.dom().finite(),
    {
        lemma_as_map_finite(self.entries@);
    }

    /// The empty table.
    pub fn new() -> (t: Self)
        ensures
            t.wf(),
            t@ == Map::<K, V>::empty(),
    {
        Table { entries: Vec::new() }
    }

    /// Where the record of `key` lies, if there is one.
    fn position(&self, key: &K) -> (r: Option<usize>)
        ensures
            match r {
                Some(i) => i < self.entries@.len() && self.entries@[i as int].key == *key,
                None => forall|j: int| 0 <= j < self.entries@.len() ==> self.entries@[j].key != *key,
            },
    {
        let mut i: usize = 0;
        while i < self.entries.len()
            invariant
                i <= self.entries@.len(),
                forall|j: int| 0 <= j < i ==> self.entries@[j].key != *key,
            decreases self.entries@.len() - i,
        {
            if self.entries[i].key.same(key) {
                return Some(i);
            }
            i += 1;
        }
        None
    }

    /// Whether a value is stored under `key`.
    pub fn has(&self, key: &K) -> (r: bool)
        requires
            self.wf(),
        ensures
            r == self@.contains_key(*key),
    {
        match self.position(key) {
            Some(i) => {
                proof {
                    lemma_as_map_present(self.entries@, i as int);
                }
                true
            },
            None => {
                proof {
                    lemma_as_map_absent(self.entries@, *key);
                }
                false
            },
        }
    }

    /// The value stored under `key`, if there is one.
    pub fn get(&self, key: &K) -> (r: Option<V>)
        requires
            self.wf(),
        ensures
            r == (if self@.contains_key(*key) {
                Some(self@[*key])
            } else {
                None
            }),
    {
        match self.position(key) {
            Some(i) => {
                proof {
                    lemma_as_map_present(self.entries@, i as int);
                }
                Some(self.entries[i].value)
            },
            None => {
                proof {
                    lemma_as_map_absent(self.entries@, *key);
                }
                None
            },
        }
    }

    /// Stores `value` under `key`, in place of what was stored there.
    pub fn set(&mut self, key: K, value: V)
        requires
            old(self).wf(),
        ensures
            final(self).wf(),
            final(self)@ == old(self)@.insert(key, value),
    {
        match self.position(&key) {
            Some(i) => {
                proof {
                    lemma_as_map_update(self.entries@, i as int, value);
                }
                self.entries.set(i, Entry { key, value });
            },
            None => {
                self.entries.push(Entry { key, value });
                assert(self.entries@.drop_last() =~= old(self).entries@);
            },
        }
    }

    /// Deletes what is stored under `key`, if anything.
    pub fn remove(&mut self, key: &K)
        requires
            old(self).wf(),
        ensures
            final(self).wf(),
            final(self)@ == old(self)@.remove(*key),
    {
        match self.position(key) {
            Some(i) => {
                proof {
                    lemma_as_map_remove(self.entries@, i as int);
                }
                self.entries.remove(i);
            },
            None => {
                proof {
                    lemma_as_map_absent(self.entries@, *key);
                }
                assert(self@ =~= old(self)@.remove(*key));
            },
        }
    }
}

} // verus!
