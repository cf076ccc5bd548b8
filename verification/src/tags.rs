use vstd::prelude::*;
use crate::cache::KeyedCache;

verus! {

/// A set of tags. No tag is held twice; the tags are kept in the order in
/// which they first came.
#[derive(Debug, PartialEq, Eq)]
pub struct TagSet {
    tags: KeyedCache<()>,
}

impl TagSet {
    /// No tag is held twice.
    #[verifier::type_invariant]
    closed spec fn inv(self) -> bool {
        self.tags.wf()
    }

    /// The tags as a set of texts.
    pub closed spec fn view(&self) -> Set<Seq<char>> {
        self.tags@.dom()
    }

    /// The tags in the order in which they first came.
    pub closed spec fn tag_seq(&self) -> Seq<Seq<char>> {
        self.tags.key_seq()
    }

    /// The empty set.
    pub fn new() -> (r: Self)
        ensures
            r@ == Set::<Seq<char>>::empty(),
            r.tag_seq() == Seq::<Seq<char>>::empty(),
    {
        let r = TagSet { tags: KeyedCache::new() };
        assert(r@ =~= Set::<Seq<char>>::empty());
        r
    }

    /// The number of tags. The list of the tags holds each tag of the set
    /// once, and nothing else.
    pub fn len(&self) -> (r: usize)
        ensures
            r == self.tag_seq().len(),
            r == self@.len(),
            self@.finite(),
            self.tag_seq().no_duplicates(),
            self.tag_seq().to_set() == self@,
    {
        proof {
            use_type_invariant(self);
            self.tags.lemma_entries();
            assert(self.tag_seq().to_set() =~= self@);
        }
        self.tags.len()
    }

    /// Whether the set holds a tag.
    pub fn contains(&self, tag: &str) -> (r: bool)
        ensures
            r == self@.contains(tag@),
    {
        proof {
            use_type_invariant(self);
        }
        self.tags.contains_key(tag)
    }

    /// The tag at a place in the order in which the tags came.
    pub fn tag_at(&self, i: usize) -> (r: &String)
        requires
            i < self.tag_seq().len(),
        ensures
            r@ == self.tag_seq()[i as int],
            self@.contains(r@),
    {
        proof {
            use_type_invariant(self);
            self.tags.lemma_entries();
        }
        self.tags.key_at(i)
    }

    /// This set with one more tag. A tag that the set holds already is not
    /// held a second time.
    pub fn with(self, tag: String) -> (r: Self)
        ensures
            r@ == self@.insert(tag@),
            r.tag_seq() == if self@.contains(tag@) {
                self.tag_seq()
            } else {
                self.tag_seq().push(tag@)
            },
    {
        proof {
            use_type_invariant(&self);
        }
        let mut tags = self.tags;
        tags.insert(tag, ());
        let r = TagSet { tags };
        assert(r@ =~= self@.insert(tag@));
        r
    }

    /// Puts a tag into the set, and says whether it was new.
    pub fn insert(&mut self, tag: String) -> (r: bool)
        ensures
            final(self)@ == old(self)@.insert(tag@),
            r == !old(self)@.contains(tag@),
            final(self).tag_seq() == if r {
                old(self).tag_seq().push(tag@)
            } else {
                old(self).tag_seq()
            },
    {
        let fresh = !self.contains(tag.as_str());
        let mut taken = TagSet::new();
        core::mem::swap(self, &mut taken);
        *self = taken.with(tag);
        fresh
    }
}

impl Clone for TagSet {
    fn clone(&self) -> (r: Self)
        ensures
            r@ == self@,
            r.tag_seq() == self.tag_seq(),
    {
        let n = self.len();
        let mut r = TagSet::new();
        let mut i: usize = 0;
        while i < n
            invariant
                0 <= i <= n,
                n == self.tag_seq().len(),
                self.tag_seq().no_duplicates(),
                r.tag_seq() == self.tag_seq().take(i as int),
                r@ == self.tag_seq().take(i as int).to_set(),
            decreases n - i,
        {
            let ghost before = self.tag_seq().take(i as int);
            let ghost next = self.tag_seq().take(i as int + 1);
            let tag = self.tag_at(i).clone();
            proof {
                assert(next =~= before.push(tag@));
                assert(next.to_set() =~= before.to_set().insert(tag@)) by {
                    assert forall|x: Seq<char>|
                        next.to_set().contains(x) <==> before.to_set().insert(tag@).contains(
                            x,
                        ) by {
                        assert(next[before.len() as int] == tag@);
                        if next.contains(x) {
                            let j = next.index_of(x);
                            if j < before.len() {
                                assert(before[j] == x);
                            }
                        }
                        if before.contains(x) {
                            let j = before.index_of(x);
                            assert(next[j] == x);
                        }
                    }
                }
                assert(!before.contains(tag@)) by {
                    if before.contains(tag@) {
                        let j = before.index_of(tag@);
                        assert(self.tag_seq()[j] == self.tag_seq()[i as int]);
                    }
                }
            }
            r = r.with(tag);
            i += 1;
        }
        assert(self.tag_seq().take(n as int) =~= self.tag_seq());
        r
    }
}

} // verus!
