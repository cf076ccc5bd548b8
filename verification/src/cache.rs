use vstd::prelude::*;
use crate::text::same_text;

verus! {

/// A small map from text keys to values, kept as a list of entries in the
/// order in which their keys first came. No key stands twice.
#[derive(Debug, PartialEq, Eq)]
pub struct KeyedCache<V> {
    keys: Vec<String>,
    values: Vec<V>,
}

/// The characters of each of a list of keys.
pub open spec fn key_texts(keys: Seq<String>) -> Seq<Seq<char>> {
    Seq::new(keys.len(), |i: int| keys[i]@)
}

impl<V> KeyedCache<V> {
    /// The keys in the order in which they came.
    pub closed spec fn key_seq(&self) -> Seq<Seq<char>> {
        key_texts(self.keys@)
    }

    /// The values, each at the place of its key.
    pub closed spec fn value_seq(&self) -> Seq<V> {
        self.values@
    }

    /// Every key has its value, and no key stands twice.
    pub closed spec fn wf(&self) -> bool {
        &&& self.keys@.len() == self.values@.len()
        &&& self.key_seq().no_duplicates()
    }

    /// The cache as a map from keys to values.
    pub open spec fn view(&self) -> Map<Seq<char>, V> {
        Map::new(
            |k: Seq<char>| self.key_seq().contains(k),
            |k: Seq<char>| self.value_seq()[self.key_seq().index_of(k)],
        )
    }

    /// In a well-formed cache the two lists have one length, the keys are
    /// distinct, and the map holds each entry of the lists.
    pub proof fn lemma_entries(&self)
        requires
            self.wf(),
        ensures
            self.key_seq().len() == self.value_seq().len(),
            self.key_seq().no_duplicates(),
            forall|i: int|
                0 <= i < self.key_seq().len() ==> self@.contains_key(#[trigger] self.key_seq()[i])
                    && self@[self.key_seq()[i]] == self.value_seq()[i],
            forall|k: Seq<char>|
                self@.contains_key(k) ==> 0 <= self.key_seq().index_of(k) < self.key_seq().len()
                    && self.key_seq()[self.key_seq().index_of(k)] == k,
    {
        let ks = self.key_seq();
        assert forall|i: int| 0 <= i < ks.len() implies self@.contains_key(#[trigger] ks[i])
            && self@[ks[i]] == self.value_seq()[i] by {
            let j = ks.index_of(ks[i]);
            assert(ks.contains(ks[i]));
            assert(0 <= j < ks.len() && ks[j] == ks[i]);
        }
        assert forall|k: Seq<char>| self@.contains_key(k) implies 0 <= ks.index_of(k) < ks.len()
            && ks[ks.index_of(k)] == k by {
            assert(ks.contains(k));
        }
    }

    /// An empty cache.
    pub fn new() -> (r: Self)
        ensures
            r.wf(),
            r@ == Map::<Seq<char>, V>::empty(),
            r.key_seq() == Seq::<Seq<char>>::empty(),
    {
        let r = KeyedCache { keys: Vec::new(), values: Vec::new() };
        assert(r.key_seq() =~= Seq::<Seq<char>>::empty());
        assert(r@ =~= Map::<Seq<char>, V>::empty());
        r
    }

    /// The number of entries.
    pub fn len(&self) -> (r: usize)
        requires
            self.wf(),
        ensures
            r == self.key_seq().len(),
            r == self@.dom().len(),
            self@.dom().finite(),
    {
        proof {
            self.lemma_entries();
            self.key_seq().unique_seq_to_set();
            assert(self.key_seq().to_set() =~= self@.dom());
        }
        self.keys.len()
    }

    /// The place of a key in the list of keys, if the cache holds it.
    pub fn position(&self, key: &str) -> (r: Option<usize>)
        requires
            self.wf(),
        ensures
            r is Some <==> self@.contains_key(key@),
            r matches Some(i) ==> i < self.key_seq().len() && self.key_seq()[i as int] == key@
                && self@[key@] == self.value_seq()[i as int],
    {
        proof {
            self.lemma_entries();
        }
        let mut i: usize = 0;
        while i < self.keys.len()
            invariant
                self.wf(),
                0 <= i <= self.keys.len(),
                forall|j: int| 0 <= j < i ==> self.key_seq()[j] != key@,
            decreases self.keys.len() - i,
        {
            if same_text(self.keys[i].as_str(), key) {
                assert(self.key_seq()[i as int] == key@);
                proof {
                    self.lemma_entries();
                }
                return Some(i);
            }
            i += 1;
        }
        assert(!self.key_seq().contains(key@));
        None
    }

    /// Whether the cache holds a key.
    pub fn contains_key(&self, key: &str) -> (r: bool)
        requires
            self.wf(),
        ensures
            r == self@.contains_key(key@),
    {
        self.position(key).is_some()
    }

    /// The value under a key.
    pub fn get(&self, key: &str) -> (r: Option<&V>)
        requires
            self.wf(),
        ensures
            r is Some <==> self@.contains_key(key@),
            r matches Some(v) ==> *v == self@[key@],
    {
        match self.position(key) {
            Some(i) => Some(&self.values[i]),
            None => None,
        }
    }

    /// The key at a place in the list.
    pub fn key_at(&self, i: usize) -> (r: &String)
        requires
            self.wf(),
            i < self.key_seq().len(),
        ensures
            r@ == self.key_seq()[i as int],
    {
        &self.keys[i]
    }

    /// The value at a place in the list.
    pub fn value_at(&self, i: usize) -> (r: &V)
        requires
            self.wf(),
            i < self.key_seq().len(),
        ensures
            *r == self.value_seq()[i as int],
            self@.contains_key(self.key_seq()[i as int]),
            *r == self@[self.key_seq()[i as int]],
    {
        proof {
            self.lemma_entries();
        }
        &self.values[i]
    }

    /// Puts a value under a key. A value that stood there is replaced and
    /// handed back; the key keeps its place in the list.
    pub fn insert(&mut self, key: String, value: V) -> (r: Option<V>)
        requires
            old(self).wf(),
        ensures
            final(self).wf(),
            final(self)@ == old(self)@.insert(key@, value),
            r is Some <==> old(self)@.contains_key(key@),
            r matches Some(v) ==> v == old(self)@[key@],
            old(self)@.contains_key(key@) ==> final(self).key_seq() == old(self).key_seq(),
            !old(self)@.contains_key(key@) ==> final(self).key_seq() == old(self).key_seq().push(
                key@,
            ),
    {
        proof {
            self.lemma_entries();
        }
        match self.position(key.as_str()) {
            Some(i) => {
                self.values.push(value);
                let before = self.values.swap_remove(i);
                proof {
                    assert(self.key_seq() == old(self).key_seq());
                    assert(self.value_seq() =~= old(self).value_seq().update(i as int, value));
                    self.lemma_entries();
                    old(self).lemma_entries();
                    assert(self@ =~= old(self)@.insert(key@, value)) by {
                        assert forall|k: Seq<char>| self@.contains_key(k) implies #[trigger] self@[k]
                            == old(self)@.insert(key@, value)[k] by {
                            let j = self.key_seq().index_of(k);
                            if j == i as int {
                            } else {
                            }
                        }
                    }
                }
                Some(before)
            },
            None => {
                let ghost key_text = key@;
                self.keys.push(key);
                self.values.push(value);
                proof {
                    let ks = old(self).key_seq();
                    assert(self.key_seq() =~= ks.push(key_text));
                    assert(!ks.contains(key_text));
                    assert(self.key_seq().no_duplicates()) by {
                        assert forall|a: int, b: int|
                            0 <= a < self.key_seq().len() && 0 <= b < self.key_seq().len() && a
                                != b implies self.key_seq()[a] != self.key_seq()[b] by {
                            if a < ks.len() {
                                assert(ks.contains(ks[a]));
                            }
                            if b < ks.len() {
                                assert(ks.contains(ks[b]));
                            }
                        }
                    }
                    self.lemma_entries();
                    old(self).lemma_entries();
                    assert(self@ =~= old(self)@.insert(key_text, value)) by {
                        assert forall|k: Seq<char>|
                            self@.contains_key(k) <==> old(self)@.insert(
                                key_text,
                                value,
                            ).contains_key(k) by {
                            if self.key_seq().contains(k) {
                                let j = self.key_seq().index_of(k);
                                if j < ks.len() {
                                    assert(ks[j] == k);
                                    assert(ks.contains(k));
                                }
                            }
                            if ks.contains(k) {
                                let j = ks.index_of(k);
                                assert(self.key_seq()[j] == k);
                            }
                            if k == key_text {
                                assert(self.key_seq()[ks.len() as int] == k);
                            }
                        }
                        assert forall|k: Seq<char>| self@.contains_key(k) implies #[trigger] self@[k]
                            == old(self)@.insert(key_text, value)[k] by {
                            let j = self.key_seq().index_of(k);
                            if j < ks.len() {
                                assert(ks[j] == k);
                                assert(ks.contains(k));
                                assert(old(self).key_seq()[j] == k);
                            }
                        }
                    }
                }
                None
            },
        }
    }

    /// Takes out the entry at a place in the list. The entries behind it
    /// move up by one place.
    pub fn remove_at(&mut self, i: usize) -> (r: (String, V))
        requires
            old(self).wf(),
            i < old(self).key_seq().len(),
        ensures
            final(self).wf(),
            r.0@ == old(self).key_seq()[i as int],
            r.1 == old(self).value_seq()[i as int],
            final(self).key_seq() == old(self).key_seq().remove(i as int),
            final(self).value_seq() == old(self).value_seq().remove(i as int),
            final(self)@ == old(self)@.remove(r.0@),
    {
        proof {
            self.lemma_entries();
        }
        let key = self.keys.remove(i);
        let value = self.values.remove(i);
        proof {
            let ks = old(self).key_seq();
            let ns = self.key_seq();
            assert(ns =~= ks.remove(i as int));
            assert(ns.no_duplicates()) by {
                assert forall|a: int, b: int| 0 <= a < ns.len() && 0 <= b < ns.len() && a != b implies ns[a]
                    != ns[b] by {
                    let a0 = if a < i { a } else { a + 1 };
                    let b0 = if b < i { b } else { b + 1 };
                    assert(ns[a] == ks[a0] && ns[b] == ks[b0]);
                }
            }
            self.lemma_entries();
            assert(self@ =~= old(self)@.remove(key@)) by {
                assert forall|k: Seq<char>|
                    self@.contains_key(k) <==> old(self)@.remove(key@).contains_key(k) by {
                    assert(key@ == ks[i as int]);
                    if ns.contains(k) {
                        let j = ns.index_of(k);
                        let j0 = if j < i { j } else { j + 1 };
                        assert(ks[j0] == k);
                        assert(ks.contains(k));
                        assert(ks[j0] != ks[i as int]);
                    }
                    if ks.contains(k) && k != key@ {
                        let j = ks.index_of(k);
                        assert(ks[j] == k);
                        let j1 = if j < i { j } else { j - 1 };
                        assert(ns[j1] == k);
                        assert(ns.contains(k));
                    }
                }
                assert forall|k: Seq<char>| self@.contains_key(k) implies #[trigger] self@[k]
                    == old(self)@.remove(key@)[k] by {
                    let j = ns.index_of(k);
                    let j0 = if j < i { j } else { j + 1 };
                    assert(ks[j0] == k);
                    assert(old(self)@[ks[j0]] == old(self).value_seq()[j0]);
                }
            }
        }
        (key, value)
    }
}

} // verus!
