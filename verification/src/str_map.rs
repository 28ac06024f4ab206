//! Maps keyed by strings, as lists of pairs with unique keys.

use vstd::prelude::*;

verus! {

/// A map from strings to values, kept as a list of pairs in which no key occurs twice.
pub struct StrMap<V> {
    entries: Vec<(String, V)>,
}

/// No key occurs twice.
pub open spec fn unique_keys<V>(m: Seq<(String, V)>) -> bool {
    forall|i: int, j: int|
        0 <= i < m.len() && 0 <= j < m.len() && i != j ==> (#[trigger] m[i]).0@ != (#[trigger] m[j]).0@
}

/// The map from key to value that a list of pairs with unique keys stands for.
pub open spec fn pairs_map<V>(m: Seq<(String, V)>) -> Map<Seq<char>, V> {
    Map::new(
        |k: Seq<char>| exists|i: int| 0 <= i < m.len() && (#[trigger] m[i]).0@ == k,
        |k: Seq<char>| m[choose|i: int| 0 <= i < m.len() && (#[trigger] m[i]).0@ == k].1,
    )
}

proof fn lemma_pairs_map_at<V>(m: Seq<(String, V)>, i: int)
    requires
        unique_keys(m),
        0 <= i < m.len(),
    ensures
        pairs_map(m).contains_key(m[i].0@),
        pairs_map(m)[m[i].0@] == m[i].1,
{
    let k = m[i].0@;
    assert(exists|j: int| 0 <= j < m.len() && (#[trigger] m[j]).0@ == k);
    let c = choose|j: int| 0 <= j < m.len() && (#[trigger] m[j]).0@ == k;
    assert(c == i);
}

/// Binds `value` to `key` in a list of pairs with unique keys, replacing what was bound to it.
pub fn insert_pair<V>(entries: &mut Vec<(String, V)>, key: String, value: V)
    requires
        unique_keys(old(entries)@),
    ensures
        unique_keys(final(entries)@),
        pairs_map(final(entries)@) == pairs_map(old(entries)@).insert(key@, value),
{
    let ghost old_m = entries@;
    let mut i: usize = 0;
    while i < entries.len()
        invariant
            i <= entries@.len(),
            entries@ == old_m,
            old(entries)@ == old_m,
            unique_keys(old_m),
            forall|j: int| 0 <= j < i ==> (#[trigger] old_m[j]).0@ != key@,
        decreases entries@.len() - i,
    {
        if entries[i].0 == key {
            let ghost at = i as int;
            entries.set(i, (key, value));
            let ghost new_m = entries@;
            proof {
                assert(new_m == old_m.update(at, (key, value)));
                assert(unique_keys(new_m)) by {
                    assert forall|a: int, b: int|
                        0 <= a < new_m.len() && 0 <= b < new_m.len() && a != b implies (
                        #[trigger] new_m[a]).0@ != (#[trigger] new_m[b]).0@ by {
                        if a != at && b != at {
                            assert(old_m[a] == new_m[a] && old_m[b] == new_m[b]);
                        } else if a == at {
                            assert(old_m[b] == new_m[b]);
                            assert(old_m[at].0@ == key@);
                        } else {
                            assert(old_m[a] == new_m[a]);
                            assert(old_m[at].0@ == key@);
                        }
                    }
                }
                assert(pairs_map(new_m) =~= pairs_map(old_m).insert(key@, value)) by {
                    assert forall|k: Seq<char>| #[trigger] pairs_map(new_m).contains_key(k)
                        == pairs_map(old_m).insert(key@, value).contains_key(k) by {
                        if pairs_map(new_m).contains_key(k) {
                            let c = choose|c: int| 0 <= c < new_m.len() && (#[trigger] new_m[c]).0@ == k;
                            if c != at {
                                assert(old_m[c] == new_m[c]);
                            }
                        }
                        if pairs_map(old_m).contains_key(k) {
                            let c = choose|c: int| 0 <= c < old_m.len() && (#[trigger] old_m[c]).0@ == k;
                            if c != at {
                                assert(old_m[c] == new_m[c]);
                            } else {
                                assert(new_m[at].0@ == k);
                            }
                        }
                        if k == key@ {
                            assert(new_m[at].0@ == k);
                        }
                    }
                    assert forall|k: Seq<char>| #[trigger] pairs_map(new_m).contains_key(k)
                        implies pairs_map(new_m)[k] == pairs_map(old_m).insert(key@, value)[k] by {
                        let c = choose|c: int| 0 <= c < new_m.len() && (#[trigger] new_m[c]).0@ == k;
                        lemma_pairs_map_at(new_m, c);
                        if c != at {
                            assert(old_m[c] == new_m[c]);
                            lemma_pairs_map_at(old_m, c);
                        } else {
                            lemma_pairs_map_at(new_m, at);
                        }
                    }
                }
            }
            return;
        }
        i = i + 1;
    }
    entries.push((key, value));
    let ghost new_m = entries@;
    proof {
        assert(new_m == old_m.push((key, value)));
        assert(unique_keys(new_m)) by {
            assert forall|a: int, b: int|
                0 <= a < new_m.len() && 0 <= b < new_m.len() && a != b implies (
                #[trigger] new_m[a]).0@ != (#[trigger] new_m[b]).0@ by {
                if a < old_m.len() && b < old_m.len() {
                    assert(old_m[a] == new_m[a] && old_m[b] == new_m[b]);
                } else if a < old_m.len() {
                    assert(old_m[a] == new_m[a]);
                } else {
                    assert(old_m[b] == new_m[b]);
                }
            }
        }
        let last = old_m.len() as int;
        assert(pairs_map(new_m) =~= pairs_map(old_m).insert(key@, value)) by {
            assert forall|k: Seq<char>| #[trigger] pairs_map(new_m).contains_key(k)
                == pairs_map(old_m).insert(key@, value).contains_key(k) by {
                if pairs_map(new_m).contains_key(k) {
                    let c = choose|c: int| 0 <= c < new_m.len() && (#[trigger] new_m[c]).0@ == k;
                    if c != last {
                        assert(old_m[c] == new_m[c]);
                    }
                }
                if pairs_map(old_m).contains_key(k) {
                    let c = choose|c: int| 0 <= c < old_m.len() && (#[trigger] old_m[c]).0@ == k;
                    assert(old_m[c] == new_m[c]);
                }
                if k == key@ {
                    assert(new_m[last].0@ == k);
                }
            }
            assert forall|k: Seq<char>| #[trigger] pairs_map(new_m).contains_key(k)
                implies pairs_map(new_m)[k] == pairs_map(old_m).insert(key@, value)[k] by {
                let c = choose|c: int| 0 <= c < new_m.len() && (#[trigger] new_m[c]).0@ == k;
                lemma_pairs_map_at(new_m, c);
                if c != last {
                    assert(old_m[c] == new_m[c]);
                    lemma_pairs_map_at(old_m, c);
                }
            }
        }
    }
}

/// The value bound to `key` in a list of pairs with unique keys, if any.
pub fn get_pair<'a, V>(entries: &'a Vec<(String, V)>, key: &String) -> (r: Option<&'a V>)
    requires
        unique_keys(entries@),
    ensures
        match r {
            Some(s) => pairs_map(entries@).contains_key(key@) && pairs_map(entries@)[key@] == *s,
            None => !pairs_map(entries@).contains_key(key@),
        },
{
    let mut i: usize = 0;
    while i < entries.len()
        invariant
            i <= entries@.len(),
            unique_keys(entries@),
            forall|j: int| 0 <= j < i ==> (#[trigger] entries@[j]).0@ != key@,
        decreases entries@.len() - i,
    {
        if entries[i].0 == *key {
            proof {
                lemma_pairs_map_at(entries@, i as int);
            }
            return Some(&entries[i].1);
        }
        i = i + 1;
    }
    None
}

impl<V> StrMap<V> {
    #[verifier::type_invariant]
    spec fn inv(&self) -> bool {
        unique_keys(self.entries@)
    }

    /// The map this stands for.
    pub closed spec fn view(&self) -> Map<Seq<char>, V> {
        pairs_map(self.entries@)
    }

    /// The empty map.
    pub fn new() -> (r: Self)
        ensures
            r@ == Map::<Seq<char>, V>::empty(),
    {
        let r = StrMap { entries: Vec::new() };
        assert(r@ =~= Map::<Seq<char>, V>::empty());
        r
    }

    /// Binds `value` to `key`, replacing what was bound to it.
    pub fn insert(&mut self, key: String, value: V)
        ensures
            final(self)@ == old(self)@.insert(key@, value),
    {
        proof {
            use_type_invariant(&*self);
        }
        let mut entries: Vec<(String, V)> = Vec::new();
        std::mem::swap(&mut entries, &mut self.entries);
        insert_pair(&mut entries, key, value);
        std::mem::swap(&mut entries, &mut self.entries);
    }

    /// The value bound to `key`, if any.
    pub fn get(&self, key: &String) -> (r: Option<&V>)
        ensures
            match r {
                Some(s) => self@.contains_key(key@) && self@[key@] == *s,
                None => !self@.contains_key(key@),
            },
    {
        proof {
            use_type_invariant(self);
        }
        get_pair(&self.entries, key)
    }
}

impl StrMap<String> {
    /// A copy of this map.
    pub fn duplicate(&self) -> (r: Self)
        ensures
            r@ == self@,
    {
        proof {
            use_type_invariant(self);
        }
        let mut entries: Vec<(String, String)> = Vec::new();
        let mut i: usize = 0;
        while i < self.entries.len()
            invariant
                i <= self.entries@.len(),
                unique_keys(self.entries@),
                entries@ == self.entries@.take(i as int),
            decreases self.entries@.len() - i,
        {
            let key = self.entries[i].0.clone();
            let value = self.entries[i].1.clone();
            entries.push((key, value));
            assert(self.entries@.take(i + 1) == self.entries@.take(i as int).push(self.entries@[i as int]));
            i = i + 1;
        }
        assert(entries@ == self.entries@);
        StrMap { entries }
    }
}

} // verus!
