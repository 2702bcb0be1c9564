use vstd::prelude::*;

use crate::keys::Key;

verus! {

/// The keys held down at one instant.
///
/// Each key appears at most once. The order in which keys were added is
/// kept: it fixes the order in which the events of a tick come out.
pub struct KeySet {
    keys: Vec<Key>,
}

impl View for KeySet {
    type V = Set<Key>;

    open spec fn view(&self) -> Set<Key> {
        self.elems().to_set()
    }
}

impl KeySet {
    /// The keys in the order in which they were added.
    pub closed spec fn elems(&self) -> Seq<Key> {
        self.keys@
    }

    pub open spec fn wf(&self) -> bool {
        self.elems().no_duplicates()
    }

    /// The empty set.
    pub fn new() -> (r: KeySet)
        ensures
            r.wf(),
            r.elems() == Seq::<Key>::empty(),
            r@ == Set::<Key>::empty(),
    {
        let r = KeySet { keys: Vec::new() };
        assert(r@ =~= Set::<Key>::empty());
        r
    }

    /// Whether `key` is held.
    pub fn contains(&self, key: &Key) -> (r: bool)
        ensures
            r == self@.contains(*key),
    {
        let mut i: usize = 0;
        while i < self.keys.len()
            invariant
                0 <= i <= self.keys@.len(),
                forall|j: int| 0 <= j < i ==> self.keys@[j] != *key,
            decreases self.keys@.len() - i,
        {
            if self.keys[i] == *key {
                assert(self.keys@[i as int] == *key);
                return true;
            }
            i += 1;
        }
        false
    }

    /// The number of keys held.
    pub fn len(&self) -> (r: usize)
        ensures
            r == self.elems().len(),
    {
        self.keys.len()
    }

    /// The key at position `i`, in the order in which keys were added.
    pub fn get(&self, i: usize) -> (r: Key)
        requires
            i < self.elems().len(),
        ensures
            r == self.elems()[i as int],
    {
        self.keys[i]
    }

    /// Adds `key`; a key that is already held keeps its place.
    pub fn insert(&mut self, key: Key)
        requires
            old(self).wf(),
        ensures
            final(self).wf(),
            final(self)@ == old(self)@.insert(key),
            old(self)@.contains(key) ==> final(self).elems() == old(self).elems(),
            !old(self)@.contains(key) ==> final(self).elems() == old(self).elems().push(key),
    {
        if !self.contains(&key) {
            self.keys.push(key);
            proof {
                old(self).elems().lemma_push_to_set_commute(key);
            }
        } else {
            assert(old(self)@.insert(key) =~= old(self)@);
        }
    }

    /// The set of the keys in `keys`; a key that repeats counts once.
    pub fn from_keys(keys: &Vec<Key>) -> (r: KeySet)
        ensures
            r.wf(),
            r@ == keys@.to_set(),
    {
        let mut r = KeySet::new();
        let mut i: usize = 0;
        while i < keys.len()
            invariant
                0 <= i <= keys@.len(),
                r.wf(),
                r@ == keys@.subrange(0, i as int).to_set(),
            decreases keys@.len() - i,
        {
            r.insert(keys[i]);
            proof {
                assert(keys@.subrange(0, i + 1) =~= keys@.subrange(0, i as int).push(keys@[i as int]));
                keys@.subrange(0, i as int).lemma_push_to_set_commute(keys@[i as int]);
            }
            i += 1;
        }
        assert(keys@.subrange(0, keys@.len() as int) =~= keys@);
        r
    }
}

} // verus!
