//! Association lists: a sequence of (key, value) pairs read as a map, and a
//! string-keyed table of strings built on it.

use vstd::prelude::*;

verus! {

/// The map that inserting the pairs one after the other gives: a later pair
/// for the same key replaces an earlier one.
pub open spec fn fold_pairs<K, V>(s: Seq<(K, V)>) -> Map<K, V>
    decreases s.len(),
{
    if s.len() == 0 {
        Map::empty()
    } else {
        fold_pairs(s.drop_last()).insert(s.last().0, s.last().1)
    }
}

/// No two pairs share a key.
pub open spec fn unique_keys<K, V>(s: Seq<(K, V)>) -> bool {
    forall|i: int, j: int| 0 <= i < j < s.len() ==> s[i].0 != s[j].0
}

/// A key that no pair holds is not in the map.
pub proof fn lemma_fold_absent<K, V>(s: Seq<(K, V)>, k: K)
    requires
        forall|i: int| 0 <= i < s.len() ==> s[i].0 != k,
    ensures
        !fold_pairs(s).contains_key(k),
    decreases s.len(),
{
    if s.len() > 0 {
        lemma_fold_absent(s.drop_last(), k);
    }
}

/// With unique keys, the map holds each pair.
pub proof fn lemma_fold_lookup<K, V>(s: Seq<(K, V)>, i: int)
    requires
        unique_keys(s),
        0 <= i < s.len(),
    ensures
        fold_pairs(s).contains_key(s[i].0),
        fold_pairs(s)[s[i].0] == s[i].1,
    decreases s.len(),
{
    if i < s.len() - 1 {
        lemma_fold_lookup(s.drop_last(), i);
    }
}

/// The keys of the map are the keys of the pairs.
pub proof fn lemma_fold_dom<K, V>(s: Seq<(K, V)>, k: K)
    ensures
        fold_pairs(s).contains_key(k) <==> exists|i: int| 0 <= i < s.len() && s[i].0 == k,
    decreases s.len(),
{
    if s.len() > 0 {
        lemma_fold_dom(s.drop_last(), k);
        if fold_pairs(s.drop_last()).contains_key(k) {
            let i = choose|i: int| 0 <= i < s.drop_last().len() && s.drop_last()[i].0 == k;
            assert(s[i].0 == k);
        }
        if exists|i: int| 0 <= i < s.len() && s[i].0 == k {
            let i = choose|i: int| 0 <= i < s.len() && s[i].0 == k;
            if i < s.len() - 1 {
                assert(s.drop_last()[i].0 == k);
            }
        }
    }
}

/// Replacing the pair of a key replaces its value in the map.
pub proof fn lemma_fold_update<K, V>(s: Seq<(K, V)>, i: int, b: (K, V))
    requires
        unique_keys(s),
        0 <= i < s.len(),
        b.0 == s[i].0,
    ensures
        fold_pairs(s.update(i, b)) == fold_pairs(s).insert(b.0, b.1),
        unique_keys(s.update(i, b)),
    decreases s.len(),
{
    let t = s.update(i, b);
    if i == s.len() - 1 {
        assert(t.drop_last() =~= s.drop_last());
        assert(fold_pairs(t) =~= fold_pairs(s).insert(b.0, b.1));
    } else {
        lemma_fold_update(s.drop_last(), i, b);
        assert(t.drop_last() =~= s.drop_last().update(i, b));
        assert(fold_pairs(t) =~= fold_pairs(s).insert(b.0, b.1));
    }
}

/// Appending a pair inserts it into the map.
pub proof fn lemma_fold_push<K, V>(s: Seq<(K, V)>, b: (K, V))
    ensures
        fold_pairs(s.push(b)) == fold_pairs(s).insert(b.0, b.1),
{
    assert(s.push(b).drop_last() =~= s);
}

/// Appending a pair with a new key keeps the keys unique.
pub proof fn lemma_push_unique<K, V>(s: Seq<(K, V)>, b: (K, V))
    requires
        unique_keys(s),
        forall|i: int| 0 <= i < s.len() ==> s[i].0 != b.0,
    ensures
        unique_keys(s.push(b)),
{
    assert forall|i: int, j: int| 0 <= i < j < s.push(b).len() implies s.push(b)[i].0 != s.push(b)[j].0 by {
        if j == s.len() {
            assert(s.push(b)[i] == s[i]);
        } else {
            assert(s.push(b)[i] == s[i] && s.push(b)[j] == s[j]);
        }
    }
}

/// Removing the pair of a key removes the key from the map.
pub proof fn lemma_fold_remove<K, V>(s: Seq<(K, V)>, i: int)
    requires
        unique_keys(s),
        0 <= i < s.len(),
    ensures
        fold_pairs(s.remove(i)) == fold_pairs(s).remove(s[i].0),
        unique_keys(s.remove(i)),
    decreases s.len(),
{
    let t = s.remove(i);
    if i == s.len() - 1 {
        assert(t =~= s.drop_last());
        assert forall|j: int| 0 <= j < t.len() implies t[j].0 != s[i].0 by {
            assert(t[j] == s[j]);
        }
        lemma_fold_absent(t, s[i].0);
        assert(fold_pairs(t) =~= fold_pairs(s).remove(s[i].0));
    } else {
        lemma_fold_remove(s.drop_last(), i);
        assert(t.drop_last() =~= s.drop_last().remove(i));
        assert(t.last() == s.last());
        assert(fold_pairs(t) =~= fold_pairs(s).remove(s[i].0));
    }
}

/// The texts of a sequence of string pairs.
pub open spec fn pairs_view(s: Seq<(String, String)>) -> Seq<(Seq<char>, Seq<char>)> {
    s.map_values(|p: (String, String)| (p.0@, p.1@))
}

/// A table from strings to strings in insertion order, each key once.
#[derive(Debug)]
pub struct StringTable {
    entries: Vec<(String, String)>,
}

impl View for StringTable {
    type V = Map<Seq<char>, Seq<char>>;

    closed spec fn view(&self) -> Map<Seq<char>, Seq<char>> {
        fold_pairs(pairs_view(self.entries@))
    }
}

impl StringTable {
    /// No key is stored twice.
    #[verifier::type_invariant]
    spec fn unique(self) -> bool {
        unique_keys(pairs_view(self.entries@))
    }

    /// The stored (key, value) texts in insertion order.
    pub closed spec fn entries_view(&self) -> Seq<(Seq<char>, Seq<char>)> {
        pairs_view(self.entries@)
    }

    /// An empty table.
    pub fn new() -> (r: Self)
        ensures
            r@ == Map::<Seq<char>, Seq<char>>::empty(),
            r.entries_view().len() == 0,
    {
        let r = StringTable { entries: Vec::new() };
        assert(pairs_view(r.entries@) =~= Seq::empty());
        r
    }

    fn find(&self, key: &str) -> (r: Option<usize>)
        ensures
            match r {
                Some(i) => i < self.entries@.len() && pairs_view(self.entries@)[i as int].0 == key@,
                None => forall|i: int| 0 <= i < self.entries@.len() ==> pairs_view(self.entries@)[i].0 != key@,
            },
    {
        let mut i: usize = 0;
        while i < self.entries.len()
            invariant
                i <= self.entries@.len(),
                forall|j: int| 0 <= j < i ==> pairs_view(self.entries@)[j].0 != key@,
            decreases self.entries@.len() - i,
        {
            if crate::text::str_eq(self.entries[i].0.as_str(), key) {
                return Some(i);
            }
            i += 1;
        }
        None
    }

    /// Sets the value of `key`; a new key goes after the others.
    pub fn insert(&mut self, key: &str, value: &str)
        ensures
            final(self)@ == old(self)@.insert(key@, value@),
            !old(self)@.contains_key(key@) ==> final(self).entries_view() == old(self).entries_view().push((key@, value@)),
    {
        proof {
            use_type_invariant(&*self);
        }
        let ghost s = pairs_view(self.entries@);
        let found = self.find(key);
        let mut entries: Vec<(String, String)> = Vec::new();
        std::mem::swap(&mut entries, &mut self.entries);
        match found {
            Some(i) => {
                proof {
                    lemma_fold_update(s, i as int, (key@, value@));
                    lemma_fold_lookup(s, i as int);
                }
                entries.set(i, (key.to_owned(), value.to_owned()));
                assert(pairs_view(entries@) =~= s.update(i as int, (key@, value@)));
            },
            None => {
                proof {
                    lemma_fold_push(s, (key@, value@));
                    lemma_push_unique(s, (key@, value@));
                    lemma_fold_absent(s, key@);
                }
                entries.push((key.to_owned(), value.to_owned()));
                assert(pairs_view(entries@) =~= s.push((key@, value@)));
            },
        }
        self.entries = entries;
    }

    /// The value of `key`, if it has one.
    pub fn get(&self, key: &str) -> (r: Option<&str>)
        ensures
            match r {
                Some(v) => self@.contains_key(key@) && v@ == self@[key@],
                None => !self@.contains_key(key@),
            },
    {
        proof {
            use_type_invariant(self);
        }
        match self.find(key) {
            Some(i) => {
                proof {
                    lemma_fold_lookup(pairs_view(self.entries@), i as int);
                }
                Some(self.entries[i].1.as_str())
            },
            None => {
                proof {
                    lemma_fold_absent(pairs_view(self.entries@), key@);
                }
                None
            },
        }
    }

    /// Whether `key` has a value.
    pub fn contains_key(&self, key: &str) -> (r: bool)
        ensures
            r == self@.contains_key(key@),
    {
        self.get(key).is_some()
    }

    /// Removes the value of `key`.
    pub fn remove(&mut self, key: &str)
        ensures
            final(self)@ == old(self)@.remove(key@),
    {
        proof {
            use_type_invariant(&*self);
        }
        let ghost s = pairs_view(self.entries@);
        let found = self.find(key);
        match found {
            Some(i) => {
                let mut entries: Vec<(String, String)> = Vec::new();
                std::mem::swap(&mut entries, &mut self.entries);
                proof {
                    lemma_fold_remove(s, i as int);
                }
                entries.remove(i);
                assert(pairs_view(entries@) =~= s.remove(i as int));
                self.entries = entries;
            },
            None => {
                proof {
                    lemma_fold_absent(s, key@);
                }
                assert(self@ =~= self@.remove(key@));
            },
        }
    }

    /// Removes every key.
    pub fn clear(&mut self)
        ensures
            final(self)@ == Map::<Seq<char>, Seq<char>>::empty(),
            final(self).entries_view().len() == 0,
    {
        self.entries = Vec::new();
        assert(pairs_view(self.entries@) =~= Seq::empty());
    }

    /// The number of keys.
    pub fn len(&self) -> (r: usize)
        ensures
            r == self@.len(),
    {
        proof {
            use_type_invariant(self);
            lemma_unique_len(pairs_view(self.entries@));
        }
        self.entries.len()
    }

    /// The stored (key, value) pairs in insertion order.
    pub fn entries(&self) -> (r: &Vec<(String, String)>)
        ensures
            pairs_view(r@) == self.entries_view(),
            unique_keys(pairs_view(r@)),
            fold_pairs(pairs_view(r@)) == self@,
    {
        proof {
            use_type_invariant(self);
        }
        &self.entries
    }
}

/// With unique keys, the map has as many keys as there are pairs.
pub proof fn lemma_unique_len<K, V>(s: Seq<(K, V)>)
    requires
        unique_keys(s),
    ensures
        fold_pairs(s).len() == s.len(),
        fold_pairs(s).dom().finite(),
    decreases s.len(),
{
    if s.len() > 0 {
        let d = s.drop_last();
        assert(unique_keys(d));
        lemma_unique_len(d);
        assert forall|i: int| 0 <= i < d.len() implies d[i].0 != s.last().0 by {
            assert(d[i] == s[i]);
        }
        lemma_fold_absent(d, s.last().0);
    }
}

} // verus!
