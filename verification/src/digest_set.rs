//! A set of digests that is walked in the order in which they were added.
use crate::keys::Digest;
use vstd::prelude::*;

verus! {

/// A set of digests.
#[derive(Debug)]
pub struct DigestSet {
    items: Vec<Digest>,
}

impl View for DigestSet {
    type V = Set<Digest>;

    closed spec fn view(&self) -> Set<Digest> {
        self.items@.to_set()
    }
}

impl DigestSet {
    /// No digest occurs twice.
    pub closed spec fn wf(&self) -> bool {
        self.items@.no_duplicates()
    }

    /// The digests in the order in which they were added.
    pub closed spec fn order(&self) -> Seq<Digest> {
        self.items@
    }

    /// The empty set.
    pub fn new() -> (set: DigestSet)
        ensures
            set.wf(),
            set@ == Set::<Digest>::empty(),
    {
        let set = DigestSet { items: Vec::new() };
        assert(set@ =~= Set::<Digest>::empty());
        set
    }

    /// Where a digest is, if it is in the set.
    fn position(&self, digest: &Digest) -> (position: Option<usize>)
        ensures
            match position {
                Some(i) => i < self.items.len() && self.items[i as int] == *digest,
                None => !self@.contains(*digest),
            },
    {
        let mut i: usize = 0;
        while i < self.items.len()
            invariant
                i <= self.items.len(),
                forall|j: int| 0 <= j < i ==> self.items[j] != *digest,
            decreases self.items.len() - i,
        {
            if self.items[i] == *digest {
                return Some(i);
            }
            i = i + 1;
        }
        None
    }

    /// Whether a digest is in the set.
    pub fn contains(&self, digest: &Digest) -> (found: bool)
        ensures
            found == self@.contains(*digest),
    {
        self.position(digest).is_some()
    }

    /// Adds a digest; tells whether it was not there before.
    pub fn insert(&mut self, digest: Digest) -> (added: bool)
        requires
            old(self).wf(),
        ensures
            final(self).wf(),
            final(self)@ == old(self)@.insert(digest),
            added == !old(self)@.contains(digest),
    {
        if self.contains(&digest) {
            assert(self@ =~= old(self)@.insert(digest));
            return false;
        }
        self.items.push(digest);
        proof {
            let old_items = old(self).items@;
            assert forall|d: Digest| self@.contains(d) == old(self)@.insert(digest).contains(d) by {
                if old_items.contains(d) {
                    let i = choose|i: int| 0 <= i < old_items.len() && old_items[i] == d;
                    assert(self.items@[i] == d);
                }
                assert(self.items@[old_items.len() as int] == digest);
            }
            assert(self@ =~= old(self)@.insert(digest));
        }
        true
    }

    /// Takes a digest out; tells whether it was there.
    pub fn remove(&mut self, digest: &Digest) -> (removed: bool)
        requires
            old(self).wf(),
        ensures
            final(self).wf(),
            final(self)@ == old(self)@.remove(*digest),
            removed == old(self)@.contains(*digest),
    {
        match self.position(digest) {
            Some(i) => {
                let _ = self.items.remove(i);
                proof {
                    let before = old(self).items@;
                    assert(before[i as int] == *digest);
                    assert forall|d: Digest|
                        self@.contains(d) == old(self)@.remove(*digest).contains(d) by {
                        if before.contains(d) && d != *digest {
                            let j = choose|j: int| 0 <= j < before.len() && before[j] == d;
                            assert(self.items@[if j < i {
                                j
                            } else {
                                j - 1
                            }] == d);
                        }
                    }
                    assert(self@ =~= old(self)@.remove(*digest));
                }
                true
            },
            None => {
                assert(self@ =~= old(self)@.remove(*digest));
                false
            },
        }
    }

    /// How many digests are in the set.
    pub fn len(&self) -> (len: usize)
        ensures
            len == self.order().len(),
    {
        self.items.len()
    }

    /// The `i`th digest of the set.
    pub fn get(&self, i: usize) -> (digest: Digest)
        requires
            i < self.order().len(),
        ensures
            digest == self.order()[i as int],
    {
        self.items[i]
    }

    /// The order lists every digest of the set, and each one once.
    pub proof fn lemma_order(&self)
        requires
            self.wf(),
        ensures
            self.order().no_duplicates(),
            self.order().to_set() == self@,
    {
    }
}

} // verus!
