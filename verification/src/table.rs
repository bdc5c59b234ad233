//! A map keyed by text.
use vstd::prelude::*;

use crate::text;

verus! {

/// A map from text to `V`, held as entries of which no two have the same key.
#[derive(Debug)]
pub struct Table<V> {
    entries: Vec<(String, V)>,
}

/// The keys of `entries`, in order.
pub closed spec fn entry_keys<V>(entries: Seq<(String, V)>) -> Seq<Seq<char>> {
    entries.map_values(|e: (String, V)| e.0@)
}

/// What `entries` hold under each key.
pub closed spec fn entry_map<V: View>(entries: Seq<(String, V)>) -> Map<Seq<char>, V::V> {
    let keys = entry_keys(entries);
    Map::new(|k: Seq<char>| keys.contains(k), |k: Seq<char>| entries[keys.index_of(k)].1@)
}

impl<V: View> View for Table<V> {
    type V = Map<Seq<char>, V::V>;

    closed spec fn view(&self) -> Map<Seq<char>, V::V> {
        entry_map(self.entries@)
    }
}

proof fn lemma_at<V: View>(entries: Seq<(String, V)>, i: int)
    requires
        entry_keys(entries).no_duplicates(),
        0 <= i < entries.len(),
    ensures
        entry_map(entries).contains_key(entries[i].0@),
        entry_map(entries)[entries[i].0@] == entries[i].1@,
{
    let keys = entry_keys(entries);
    assert(keys[i] == entries[i].0@);
    assert(keys.contains(keys[i]));
    let j = keys.index_of(keys[i]);
    assert(keys[j] == keys[i]);
}

proof fn lemma_push<V: View>(entries: Seq<(String, V)>, key: String, value: V)
    requires
        entry_keys(entries).no_duplicates(),
        !entry_keys(entries).contains(key@),
    ensures
        entry_keys(entries.push((key, value))).no_duplicates(),
        entry_map(entries.push((key, value))) == entry_map(entries).insert(key@, value@),
{
    let after = entries.push((key, value));
    let keys = entry_keys(entries);
    let new_keys = entry_keys(after);
    assert(new_keys =~= keys.push(key@));
    assert(new_keys.no_duplicates());
    assert forall|k: Seq<char>| new_keys.contains(k) <==> (keys.contains(k) || k == key@) by {
        if keys.contains(k) {
            let i = keys.index_of(k);
            assert(new_keys[i] == k);
        }
        assert(new_keys[keys.len() as int] == key@);
    }
    assert forall|k: Seq<char>| new_keys.contains(k) implies entry_map(after)[k] == entry_map(
        entries,
    ).insert(key@, value@)[k] by {
        let i = new_keys.index_of(k);
        lemma_at(after, i);
        if k != key@ {
            lemma_at(entries, i);
            assert(after[i] == entries[i]);
        }
    }
    assert(entry_map(after) =~= entry_map(entries).insert(key@, value@));
}

proof fn lemma_remove<V: View>(entries: Seq<(String, V)>, i: int)
    requires
        entry_keys(entries).no_duplicates(),
        0 <= i < entries.len(),
    ensures
        entry_keys(entries.remove(i)).no_duplicates(),
        !entry_keys(entries.remove(i)).contains(entries[i].0@),
        entry_map(entries.remove(i)) == entry_map(entries).remove(entries[i].0@),
{
    let after = entries.remove(i);
    let keys = entry_keys(entries);
    let new_keys = entry_keys(after);
    let gone = entries[i].0@;
    assert(new_keys =~= keys.remove(i));
    assert(keys[i] == gone);
    assert(new_keys.no_duplicates());
    assert forall|k: Seq<char>| new_keys.contains(k) <==> (keys.contains(k) && k != gone) by {
        if new_keys.contains(k) {
            let j = new_keys.index_of(k);
            let j2 = if j < i { j } else { j + 1 };
            assert(keys[j2] == k);
        }
        if keys.contains(k) && k != gone {
            let j = keys.index_of(k);
            let j2 = if j < i { j } else { j - 1 };
            assert(new_keys[j2] == k);
        }
    }
    assert forall|k: Seq<char>| new_keys.contains(k) implies entry_map(after)[k] == entry_map(
        entries,
    )[k] by {
        let j = new_keys.index_of(k);
        lemma_at(after, j);
        lemma_at(entries, if j < i { j } else { j + 1 });
    }
    assert(entry_map(after) =~= entry_map(entries).remove(gone));
}

impl<V> Table<V> {
    #[verifier::type_invariant]
    closed spec fn unique_keys(self) -> bool {
        entry_keys(self.entries@).no_duplicates()
    }

    /// The keys, in the order in which the table is walked.
    pub closed spec fn keys(&self) -> Seq<Seq<char>> {
        entry_keys(self.entries@)
    }
}

impl<V: View> Table<V> {
    pub fn new() -> (r: Self)
        ensures
            r@ == Map::<Seq<char>, V::V>::empty(),
            r.keys() == Seq::<Seq<char>>::empty(),
    {
        let r: Table<V> = Table { entries: Vec::new() };
        assert(r.keys() =~= Seq::<Seq<char>>::empty());
        assert(r@ =~= Map::<Seq<char>, V::V>::empty());
        r
    }

    /// The number of keys.
    pub fn len(&self) -> (r: usize)
        ensures
            r == self@.dom().len(),
            r == self.keys().len(),
            self@.dom().finite(),
            self.keys().no_duplicates(),
            self.keys().to_set() == self@.dom(),
    {
        proof {
            use_type_invariant(self);
            let keys = self.keys();
            keys.unique_seq_to_set();
            assert(keys.to_set() =~= self@.dom());
        }
        self.entries.len()
    }

    /// Where the entry for `key` stands.
    fn position(&self, key: &str) -> (r: Option<usize>)
        ensures
            match r {
                Some(i) => i < self.entries.len() && self.entries@[i as int].0@ == key@,
                None => !self.keys().contains(key@),
            },
    {
        let mut i: usize = 0;
        while i < self.entries.len()
            invariant
                i <= self.entries.len(),
                forall|j: int| 0 <= j < i ==> self.entries@[j].0@ != key@,
            decreases self.entries.len() - i,
        {
            if text::same_text(self.entries[i].0.as_str(), key) {
                return Some(i);
            }
            i = i + 1;
        }
        proof {
            let keys = self.keys();
            if keys.contains(key@) {
                let j = keys.index_of(key@);
                assert(self.entries@[j].0@ == key@);
            }
        }
        None
    }

    pub fn contains_key(&self, key: &str) -> (r: bool)
        ensures
            r == self@.contains_key(key@),
    {
        let at: Option<usize> = self.position(key);
        proof {
            use_type_invariant(self);
            if let Some(i) = at {
                lemma_at(self.entries@, i as int);
            }
        }
        at.is_some()
    }

    pub fn get(&self, key: &str) -> (r: Option<&V>)
        ensures
            match r {
                Some(v) => self@.contains_key(key@) && self@[key@] == v@,
                None => !self@.contains_key(key@),
            },
    {
        match self.position(key) {
            Some(i) => {
                proof {
                    use_type_invariant(self);
                    lemma_at(self.entries@, i as int);
                }
                Some(&self.entries[i].1)
            },
            None => None,
        }
    }

    /// The key at place `i` of the walk.
    pub fn key_at(&self, i: usize) -> (r: &String)
        requires
            i < self.keys().len(),
        ensures
            r@ == self.keys()[i as int],
            self@.contains_key(r@),
    {
        proof {
            use_type_invariant(self);
            lemma_at(self.entries@, i as int);
        }
        &self.entries[i].0
    }

    /// The value at place `i` of the walk.
    pub fn value_at(&self, i: usize) -> (r: &V)
        requires
            i < self.keys().len(),
        ensures
            self@.contains_key(self.keys()[i as int]),
            r@ == self@[self.keys()[i as int]],
    {
        proof {
            use_type_invariant(self);
            lemma_at(self.entries@, i as int);
        }
        &self.entries[i].1
    }

    pub fn remove(&mut self, key: &str)
        ensures
            final(self)@ == old(self)@.remove(key@),
    {
        match self.position(key) {
            Some(i) => {
                proof {
                    use_type_invariant(&*self);
                    lemma_remove(self.entries@, i as int);
                }
                let mut entries: Vec<(String, V)> = Vec::new();
                assert(entry_keys(entries@).no_duplicates());
                std::mem::swap(&mut entries, &mut self.entries);
                entries.remove(i);
                self.entries = entries;
            },
            None => {
                assert(self@ =~= self@.remove(key@));
            },
        }
    }

    pub fn insert(&mut self, key: String, value: V)
        ensures
            final(self)@ == old(self)@.insert(key@, value@),
    {
        let ghost before = self@;
        self.remove(key.as_str());
        proof {
            use_type_invariant(&*self);
            assert(!self@.contains_key(key@));
            assert(!entry_keys(self.entries@).contains(key@));
            lemma_push(self.entries@, key, value);
            assert(before.remove(key@).insert(key@, value@) =~= before.insert(key@, value@));
        }
        let mut entries: Vec<(String, V)> = Vec::new();
        assert(entry_keys(entries@).no_duplicates());
        std::mem::swap(&mut entries, &mut self.entries);
        entries.push((key, value));
        self.entries = entries;
    }

    /// Removes the first entry of the walk, if there is one.
    pub fn remove_first(&mut self) -> (r: Option<String>)
        ensures
            match r {
                Some(key) => old(self)@.contains_key(key@) && final(self)@ == old(self)@.remove(
                    key@,
                ),
                None => old(self)@ == Map::<Seq<char>, V::V>::empty() && final(self)@ == old(self)@,
            },
    {
        if self.entries.len() == 0 {
            assert(self@ =~= Map::<Seq<char>, V::V>::empty());
            return None;
        }
        proof {
            use_type_invariant(&*self);
            lemma_at(self.entries@, 0);
            lemma_remove(self.entries@, 0);
        }
        let mut entries: Vec<(String, V)> = Vec::new();
        assert(entry_keys(entries@).no_duplicates());
        std::mem::swap(&mut entries, &mut self.entries);
        let (key, _) = entries.remove(0);
        self.entries = entries;
        Some(key)
    }
}

} // verus!
