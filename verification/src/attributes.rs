//! A string-keyed attribute bag: the metadata that a service advertises.

use vstd::prelude::*;

verus! {

/// The map that a list of key/value pairs denotes when the pairs are entered
/// one after another: a later pair replaces an earlier one with the same key.
pub open spec fn pairs_map(pairs: Seq<(Seq<char>, Seq<char>)>) -> Map<Seq<char>, Seq<char>>
    decreases pairs.len(),
{
    if pairs.len() == 0 {
        Map::empty()
    } else {
        pairs_map(pairs.drop_last()).insert(pairs.last().0, pairs.last().1)
    }
}

/// No key occurs in two places of the list.
pub open spec fn distinct_keys(pairs: Seq<(Seq<char>, Seq<char>)>) -> bool {
    forall|i: int, j: int| 0 <= i < j < pairs.len() ==> pairs[i].0 != pairs[j].0
}

/// Some pair of the list has the key.
pub open spec fn has_key(pairs: Seq<(Seq<char>, Seq<char>)>, key: Seq<char>) -> bool {
    exists|i: int| 0 <= i < pairs.len() && #[trigger] pairs[i].0 == key
}

/// The keys of the map are the keys that occur in the list.
pub proof fn lemma_pairs_map_keys(pairs: Seq<(Seq<char>, Seq<char>)>, key: Seq<char>)
    ensures
        pairs_map(pairs).contains_key(key) <==> has_key(pairs, key),
    decreases pairs.len(),
{
    if pairs.len() > 0 {
        let front = pairs.drop_last();
        lemma_pairs_map_keys(front, key);
        if has_key(pairs, key) {
            let i = choose|i: int| 0 <= i < pairs.len() && #[trigger] pairs[i].0 == key;
            if i < front.len() {
                assert(front[i].0 == key);
            }
        }
        if has_key(front, key) {
            let i = choose|i: int| 0 <= i < front.len() && #[trigger] front[i].0 == key;
            assert(pairs[i].0 == key);
        }
    }
}

/// The last pair with a key decides the value that the map gives to it.
pub proof fn lemma_pairs_map_value(pairs: Seq<(Seq<char>, Seq<char>)>, i: int)
    requires
        0 <= i < pairs.len(),
        forall|j: int| i < j < pairs.len() ==> pairs[j].0 != pairs[i].0,
    ensures
        pairs_map(pairs).contains_key(pairs[i].0),
        pairs_map(pairs)[pairs[i].0] == pairs[i].1,
    decreases pairs.len(),
{
    if i < pairs.len() - 1 {
        lemma_pairs_map_value(pairs.drop_last(), i);
    }
}

/// To give the key of a pair that stands alone a new value in the list is to
/// enter the key with that value into the map.
pub proof fn lemma_pairs_map_replace(pairs: Seq<(Seq<char>, Seq<char>)>, i: int, value: Seq<char>)
    requires
        0 <= i < pairs.len(),
        distinct_keys(pairs),
    ensures
        distinct_keys(pairs.update(i, (pairs[i].0, value))),
        pairs_map(pairs.update(i, (pairs[i].0, value))) == pairs_map(pairs).insert(
            pairs[i].0,
            value,
        ),
    decreases pairs.len(),
{
    let changed = pairs.update(i, (pairs[i].0, value));
    let front = pairs.drop_last();
    if i == pairs.len() - 1 {
        assert(changed.drop_last() =~= front);
    } else {
        lemma_pairs_map_replace(front, i, value);
        assert(changed.drop_last() =~= front.update(i, (front[i].0, value)));
    }
}

/// Without repeated keys the map has one entry for each pair.
pub proof fn lemma_pairs_map_len(pairs: Seq<(Seq<char>, Seq<char>)>)
    requires
        distinct_keys(pairs),
    ensures
        pairs_map(pairs).dom().finite(),
        pairs_map(pairs).dom().len() == pairs.len(),
    decreases pairs.len(),
{
    if pairs.len() > 0 {
        let front = pairs.drop_last();
        lemma_pairs_map_len(front);
        lemma_pairs_map_keys(front, pairs.last().0);
        if has_key(front, pairs.last().0) {
            let i = choose|i: int| 0 <= i < front.len() && #[trigger] front[i].0 == pairs.last().0;
            assert(pairs[i].0 == pairs[pairs.len() - 1].0);
        }
    }
}

/// A map from attribute keys to attribute values.
///
/// The entries are kept in the order in which their keys first came in, and
/// no key is kept twice.
#[derive(Debug)]
pub struct AttributeMap {
    entries: Vec<(String, String)>,
}

impl View for AttributeMap {
    type V = Map<Seq<char>, Seq<char>>;

    closed spec fn view(&self) -> Map<Seq<char>, Seq<char>> {
        pairs_map(self.entries.deep_view())
    }
}

impl Clone for AttributeMap {
    fn clone(&self) -> (copy: Self)
        ensures
            copy@ == self@,
    {
        AttributeMap { entries: self.to_pairs() }
    }
}

impl AttributeMap {
    #[verifier::type_invariant]
    spec fn well_formed(self) -> bool {
        distinct_keys(self.entries.deep_view())
    }

    /// A map without entries.
    pub fn new() -> (map: Self)
        ensures
            map@ == Map::<Seq<char>, Seq<char>>::empty(),
    {
        AttributeMap { entries: Vec::new() }
    }

    /// The place of `key` among the entries.
    fn position(&self, key: &String) -> (found: Option<usize>)
        ensures
            match found {
                Some(i) => i < self.entries.len() && self.entries[i as int].0@ == key@,
                None => !has_key(self.entries.deep_view(), key@),
            },
    {
        let mut i: usize = 0;
        while i < self.entries.len()
            invariant
                i <= self.entries.len(),
                forall|j: int| 0 <= j < i ==> self.entries[j].0@ != key@,
            decreases self.entries.len() - i,
        {
            if self.entries[i].0 == *key {
                return Some(i);
            }
            i += 1;
        }
        None
    }

    /// Enters `value` under `key`; a value that stood there before is replaced.
    pub fn insert(&mut self, key: String, value: String)
        ensures
            final(self)@ == old(self)@.insert(key@, value@),
    {
        proof {
            use_type_invariant(&*self);
        }
        let found = self.position(&key);
        let mut entries: Vec<(String, String)> = Vec::new();
        core::mem::swap(&mut self.entries, &mut entries);
        let ghost before = entries.deep_view();
        match found {
            Some(i) => {
                entries.set(i, (key, value));
                proof {
                    assert(entries.deep_view() =~= before.update(i as int, (key@, value@)));
                    lemma_pairs_map_replace(before, i as int, value@);
                }
            },
            None => {
                entries.push((key, value));
                proof {
                    let after = entries.deep_view();
                    assert(after =~= before.push((key@, value@)));
                    assert(after.drop_last() =~= before);
                    assert(distinct_keys(after));
                }
            },
        }
        core::mem::swap(&mut self.entries, &mut entries);
    }

    /// The value that stands under `key`, if there is one.
    pub fn get(&self, key: &str) -> (value: Option<&String>)
        ensures
            match value {
                Some(v) => self@.contains_key(key@) && v@ == self@[key@],
                None => !self@.contains_key(key@),
            },
    {
        proof {
            use_type_invariant(self);
            lemma_pairs_map_keys(self.entries.deep_view(), key@);
        }
        let owned = key.to_owned();
        match self.position(&owned) {
            Some(i) => {
                proof {
                    lemma_pairs_map_value(self.entries.deep_view(), i as int);
                }
                Some(&self.entries[i].1)
            },
            None => None,
        }
    }

    /// The map that `pairs` denote when they are entered in their order.
    pub fn from_pairs(pairs: &Vec<(String, String)>) -> (map: Self)
        ensures
            map@ == pairs_map(pairs.deep_view()),
    {
        let mut map = AttributeMap::new();
        let mut i: usize = 0;
        while i < pairs.len()
            invariant
                i <= pairs.len(),
                map@ == pairs_map(pairs.deep_view().take(i as int)),
            decreases pairs.len() - i,
        {
            let pair = &pairs[i];
            map.insert(pair.0.clone(), pair.1.clone());
            i += 1;
            assert(pairs.deep_view().take(i as int).drop_last() =~= pairs.deep_view().take(i - 1));
        }
        assert(pairs.deep_view().take(i as int) =~= pairs.deep_view());
        map
    }

    /// The entries as a list, each key once.
    pub fn to_pairs(&self) -> (pairs: Vec<(String, String)>)
        ensures
            distinct_keys(pairs.deep_view()),
            pairs_map(pairs.deep_view()) == self@,
    {
        proof {
            use_type_invariant(self);
        }
        let mut pairs: Vec<(String, String)> = Vec::new();
        let mut i: usize = 0;
        while i < self.entries.len()
            invariant
                i <= self.entries.len(),
                pairs.deep_view() == self.entries.deep_view().take(i as int),
            decreases self.entries.len() - i,
        {
            let ghost before = pairs.deep_view();
            let pair = &self.entries[i];
            pairs.push((pair.0.clone(), pair.1.clone()));
            i += 1;
            assert(pairs.deep_view() =~= before.push((pair.0@, pair.1@)));
        }
        assert(self.entries.deep_view().take(i as int) =~= self.entries.deep_view());
        pairs
    }

    /// The number of entries.
    pub fn len(&self) -> (n: usize)
        ensures
            self@.dom().finite(),
            n == self@.dom().len(),
    {
        proof {
            use_type_invariant(self);
            lemma_pairs_map_len(self.entries.deep_view());
        }
        self.entries.len()
    }
}

} // verus!
