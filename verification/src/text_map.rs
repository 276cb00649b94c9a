//! A map from text to values that remembers the order of insertion.
use crate::text::str_eq;
use vstd::prelude::*;

verus! {

/// A map from text to values. Its entries stand in the order in which their keys
/// first came.
#[derive(Debug)]
pub struct TextMap<V> {
    entries: Vec<(String, V)>,
}

/// Whether the entry at `i` has the key `key`.
pub open spec fn has_key_at<V>(entries: Seq<(String, V)>, i: int, key: Seq<char>) -> bool {
    0 <= i < entries.len() && entries[i].0@ == key
}

/// Whether an entry has the key `key`.
pub open spec fn has_key<V>(entries: Seq<(String, V)>, key: Seq<char>) -> bool {
    exists|i: int| #[trigger] has_key_at(entries, i, key)
}

/// The value of the entry with the key `key`.
pub open spec fn value_for<V>(entries: Seq<(String, V)>, key: Seq<char>) -> V {
    entries[choose|i: int| #[trigger] has_key_at(entries, i, key)].1
}

impl<V> View for TextMap<V> {
    type V = Map<Seq<char>, V>;

    closed spec fn view(&self) -> Map<Seq<char>, V> {
        Map::new(
            |key: Seq<char>| has_key(self.entries@, key),
            |key: Seq<char>| value_for(self.entries@, key),
        )
    }
}

impl<V> TextMap<V> {
    /// No two entries have the same key.
    pub closed spec fn wf(&self) -> bool {
        forall|i: int, j: int|
            0 <= i < self.entries@.len() && 0 <= j < self.entries@.len()
                && #[trigger] self.entries@[i].0@ == #[trigger] self.entries@[j].0@ ==> i == j
    }

    /// The keys in order.
    pub closed spec fn keys(&self) -> Seq<Seq<char>> {
        self.entries@.map_values(|entry: (String, V)| entry.0@)
    }

    /// A map without entries.
    pub fn new() -> (r: Self)
        ensures
            r.wf(),
            r@ == Map::<Seq<char>, V>::empty(),
            r.keys() == Seq::<Seq<char>>::empty(),
    {
        let r = TextMap { entries: Vec::new() };
        proof {
            assert forall|key: Seq<char>| !has_key(r.entries@, key) by {}
            assert(r@ =~= Map::<Seq<char>, V>::empty());
            assert(r.keys() =~= Seq::<Seq<char>>::empty());
        }
        r
    }

    /// How many entries there are.
    pub fn len(&self) -> (r: usize)
        ensures
            r == self.keys().len(),
    {
        self.entries.len()
    }

    /// The key of the entry at `i`.
    pub fn key_at(&self, i: usize) -> (r: &String)
        requires
            i < self.keys().len(),
        ensures
            r@ == self.keys()[i as int],
    {
        &self.entries[i].0
    }

    /// The value of the entry at `i`.
    pub fn value_at(&self, i: usize) -> (r: &V)
        requires
            self.wf(),
            i < self.keys().len(),
        ensures
            self@.dom().contains(self.keys()[i as int]),
            *r == self@[self.keys()[i as int]],
    {
        proof {
            self.lemma_entry(i as int);
        }
        &self.entries[i].1
    }

    /// Every entry is in the map, and every key of the map is among the keys.
    proof fn lemma_entry(&self, i: int)
        requires
            self.wf(),
            0 <= i < self.entries@.len(),
        ensures
            self@.dom().contains(self.entries@[i].0@),
            self@[self.entries@[i].0@] == self.entries@[i].1,
    {
        let key = self.entries@[i].0@;
        assert(has_key_at(self.entries@, i, key));
        let j = choose|j: int| #[trigger] has_key_at(self.entries@, j, key);
        assert(has_key_at(self.entries@, j, key));
        assert(self.entries@[i].0@ == self.entries@[j].0@);
    }

    /// The position of `key` among the entries.
    fn position(&self, key: &str) -> (r: Option<usize>)
        ensures
            match r {
                Some(i) => has_key_at(self.entries@, i as int, key@),
                None => !has_key(self.entries@, key@),
            },
    {
        let mut i: usize = 0;
        while i < self.entries.len()
            invariant
                i <= self.entries.len(),
                forall|j: int| 0 <= j < i ==> (#[trigger] self.entries@[j]).0@ != key@,
            decreases self.entries.len() - i,
        {
            if str_eq(self.entries[i].0.as_str(), key) {
                return Some(i);
            }
            i = i + 1;
        }
        proof {
            assert forall|j: int| !(#[trigger] has_key_at(self.entries@, j, key@)) by {
                if 0 <= j < self.entries@.len() {
                    assert(self.entries@[j].0@ != key@);
                }
            }
        }
        None
    }

    /// The value for `key`.
    pub fn get(&self, key: &str) -> (r: Option<&V>)
        requires
            self.wf(),
        ensures
            r is Some == self@.dom().contains(key@),
            r is Some ==> *r->0 == self@[key@],
    {
        match self.position(key) {
            Some(i) => {
                proof {
                    self.lemma_entry(i as int);
                }
                Some(&self.entries[i].1)
            },
            None => None,
        }
    }

    /// Makes `value` the value for `key`.
    pub fn insert(&mut self, key: String, value: V)
        requires
            old(self).wf(),
        ensures
            final(self).wf(),
            final(self)@ == old(self)@.insert(key@, value),
            final(self).keys() == (if old(self)@.dom().contains(key@) {
                old(self).keys()
            } else {
                old(self).keys().push(key@)
            }),
    {
        let ghost before = *self;
        match self.position(key.as_str()) {
            Some(i) => {
                let ghost old_key = self.entries@[i as int].0@;
                self.entries.set(i, (key, value));
                proof {
                    let now = self.entries@;
                    assert(forall|j: int| 0 <= j < now.len() ==> (#[trigger] now[j]).0@ == before.entries@[j].0@);
                    assert(self.wf());
                    assert(before.keys() =~= self.keys());
                    assert forall|k: Seq<char>| has_key(now, k) == has_key(before.entries@, k) by {
                        if has_key(now, k) {
                            let j = choose|j: int| #[trigger] has_key_at(now, j, k);
                            assert(has_key_at(before.entries@, j, k));
                        }
                        if has_key(before.entries@, k) {
                            let j = choose|j: int| #[trigger] has_key_at(before.entries@, j, k);
                            assert(has_key_at(now, j, k));
                        }
                    }
                    before.lemma_entry(i as int);
                    assert(has_key(before.entries@, key@));
                    assert forall|k: Seq<char>| self@.dom().contains(k) implies self@[k]
                        == before@.insert(key@, value)[k] by {
                        let j = choose|j: int| #[trigger] has_key_at(now, j, k);
                        assert(has_key_at(now, j, k));
                        self.lemma_entry(j);
                        before.lemma_entry(j);
                        self.lemma_entry(i as int);
                    }
                    assert(self@ =~= before@.insert(key@, value));
                }
            },
            None => {
                self.entries.push((key, value));
                proof {
                    let now = self.entries@;
                    let last = now.len() - 1;
                    assert forall|i: int, j: int|
                        0 <= i < now.len() && 0 <= j < now.len() && #[trigger] now[i].0@
                            == #[trigger] now[j].0@ implies i == j by {
                        if i == last && j < last {
                            assert(has_key_at(before.entries@, j, key@));
                        }
                        if j == last && i < last {
                            assert(has_key_at(before.entries@, i, key@));
                        }
                    }
                    assert(self.wf());
                    assert(self.keys() =~= before.keys().push(key@));
                    assert forall|k: Seq<char>|
                        has_key(now, k) == (has_key(before.entries@, k) || k == key@) by {
                        if has_key(now, k) {
                            let j = choose|j: int| #[trigger] has_key_at(now, j, k);
                            if j < last {
                                assert(has_key_at(before.entries@, j, k));
                            }
                        }
                        if has_key(before.entries@, k) {
                            let j = choose|j: int| #[trigger] has_key_at(before.entries@, j, k);
                            assert(has_key_at(now, j, k));
                        }
                        if k == key@ {
                            assert(has_key_at(now, last, k));
                        }
                    }
                    assert forall|k: Seq<char>| self@.dom().contains(k) implies self@[k]
                        == before@.insert(key@, value)[k] by {
                        let j = choose|j: int| #[trigger] has_key_at(now, j, k);
                        assert(has_key_at(now, j, k));
                        self.lemma_entry(j);
                        if j < last {
                            before.lemma_entry(j);
                            assert(has_key_at(before.entries@, j, k));
                        }
                    }
                    assert(self@ =~= before@.insert(key@, value));
                }
            },
        }
    }

    /// The keys of the map are exactly its keys in order, each once.
    pub proof fn lemma_keys(&self)
        requires
            self.wf(),
        ensures
            self.keys().no_duplicates(),
            forall|key: Seq<char>| self@.dom().contains(key) <==> self.keys().contains(key),
    {
        assert forall|key: Seq<char>| self@.dom().contains(key) <==> self.keys().contains(key) by {
            if self@.dom().contains(key) {
                let j = choose|j: int| #[trigger] has_key_at(self.entries@, j, key);
                assert(self.keys()[j] == key);
            }
            if self.keys().contains(key) {
                let j = choose|j: int| 0 <= j < self.keys().len() && self.keys()[j] == key;
                assert(has_key_at(self.entries@, j, key));
            }
        }
    }
}

/// The value that a list of pairs holds for a key: that of the last pair with it.
pub open spec fn last_value(pairs: Seq<(String, String)>, key: Seq<char>) -> Option<String>
    decreases pairs.len(),
{
    if pairs.len() == 0 {
        None
    } else if pairs.last().0@ == key {
        Some(pairs.last().1)
    } else {
        last_value(pairs.drop_last(), key)
    }
}

/// Whether a map holds just the pairs of a list.
pub open spec fn holds_pairs(map: TextMap<String>, pairs: Seq<(String, String)>) -> bool {
    &&& map.wf()
    &&& forall|key: Seq<char>|
        #![trigger map@.dom().contains(key)]
        #![trigger map@[key]]
        map@.dom().contains(key) == last_value(pairs, key) is Some && (map@.dom().contains(key)
            ==> Some(map@[key]) == last_value(pairs, key))
}

/// The pairs of a list as a map.
pub fn map_of_pairs(pairs: &Vec<(String, String)>) -> (r: TextMap<String>)
    ensures
        holds_pairs(r, pairs@),
{
    let mut r: TextMap<String> = TextMap::new();
    let mut i: usize = 0;
    while i < pairs.len()
        invariant
            i <= pairs.len(),
            holds_pairs(r, pairs@.take(i as int)),
        decreases pairs.len() - i,
    {
        let ghost before = r;
        r.insert(pairs[i].0.clone(), pairs[i].1.clone());
        proof {
            assert(pairs@.take(i + 1).drop_last() =~= pairs@.take(i as int));
            assert forall|key: Seq<char>|
                #![trigger r@.dom().contains(key)]
                #![trigger r@[key]]
                r@.dom().contains(key) == last_value(pairs@.take(i + 1), key) is Some && (
                r@.dom().contains(key) ==> Some(r@[key]) == last_value(pairs@.take(i + 1), key)) by {
                assert(before@.dom().contains(key) == last_value(
                    pairs@.take(i as int),
                    key,
                ) is Some);
            }
        }
        i = i + 1;
    }
    assert(pairs@.take(i as int) =~= pairs@);
    r
}

/// The value for a key is that of the last pair with the key, and there is none only
/// where no pair has it.
pub proof fn lemma_last_pair_counts(pairs: Seq<(String, String)>, key: Seq<char>)
    ensures
        match last_value(pairs, key) {
            Some(value) => exists|i: int|
                {
                    &&& 0 <= i < pairs.len()
                    &&& (#[trigger] pairs[i]).0@ == key
                    &&& pairs[i].1 == value
                    &&& forall|j: int| i < j < pairs.len() ==> (#[trigger] pairs[j]).0@ != key
                },
            None => forall|j: int| 0 <= j < pairs.len() ==> (#[trigger] pairs[j]).0@ != key,
        },
    decreases pairs.len(),
{
    if pairs.len() > 0 {
        let rest = pairs.drop_last();
        let last = pairs.len() - 1;
        if pairs.last().0@ == key {
            assert(pairs[last].0@ == key);
        } else {
            lemma_last_pair_counts(rest, key);
            assert forall|j: int| 0 <= j < last implies #[trigger] pairs[j] == rest[j] by {}
            match last_value(rest, key) {
                Some(value) => {
                    let i = choose|i: int|
                        {
                            &&& 0 <= i < rest.len()
                            &&& (#[trigger] rest[i]).0@ == key
                            &&& rest[i].1 == value
                            &&& forall|j: int| i < j < rest.len() ==> (#[trigger] rest[j]).0@ != key
                        };
                    assert(pairs[i].0@ == key);
                    assert forall|j: int| i < j < pairs.len() implies (
                    #[trigger] pairs[j]).0@ != key by {
                        if j < last {
                            assert(rest[j].0@ != key);
                        }
                    }
                },
                None => {
                    assert forall|j: int| 0 <= j < pairs.len() implies (
                    #[trigger] pairs[j]).0@ != key by {
                        if j < last {
                            assert(rest[j].0@ != key);
                        }
                    }
                },
            }
        }
    }
}

/// A map that was made of pairs gives for each key the value of its last pair.
pub proof fn lemma_map_gives_the_last_pair(
    map: TextMap<String>,
    pairs: Seq<(String, String)>,
    i: int,
)
    requires
        holds_pairs(map, pairs),
        0 <= i < pairs.len(),
        forall|j: int| i < j < pairs.len() ==> (#[trigger] pairs[j]).0@ != pairs[i].0@,
    ensures
        map@.dom().contains(pairs[i].0@),
        map@[pairs[i].0@] == pairs[i].1,
{
    let key = pairs[i].0@;
    lemma_last_pair_counts(pairs, key);
    let k = choose|k: int|
        {
            &&& 0 <= k < pairs.len()
            &&& (#[trigger] pairs[k]).0@ == key
            &&& Some(pairs[k].1) == last_value(pairs, key)
            &&& forall|j: int| k < j < pairs.len() ==> (#[trigger] pairs[j]).0@ != key
        };
    assert(pairs[i].0@ == key);
    assert(k == i);
    assert(map@.dom().contains(key));
}

} // verus!
