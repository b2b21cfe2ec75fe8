//! The table behind the store: entries in a vector, found through a hash index.
//!
//! A lookup goes through the index and costs one hashing of the key; a walk over all entries
//! goes through the vector. Removing an entry moves the last one into its place.

use crate::clock::Timestamp;
use crate::model::{swept, Entry};
use crate::store::Data;
use vstd::hash_map::StringHashMap;
use vstd::prelude::*;

verus! {

/// An entry together with the key it is kept under.
pub(crate) struct Slot {
    pub key: String,
    pub data: Data,
}

/// Entries by key.
pub(crate) struct Table {
    /// The entries, in no order that matters.
    slots: Vec<Slot>,
    /// Where in `slots` each key is.
    index: StringHashMap<usize>,
}

impl Table {
    /// The index and the vector describe each other: every slot is indexed under its key, and
    /// every indexed key leads to the slot that carries it.
    pub(crate) closed spec fn wf(&self) -> bool {
        &&& forall|i: int|
            #![trigger self.slots@[i]]
            0 <= i < self.slots@.len() ==> {
                &&& self.index@.contains_key(self.slots@[i].key@)
                &&& self.index@[self.slots@[i].key@] == i
            }
        &&& forall|key: Seq<char>| #[trigger]
            self.index@.contains_key(key) ==> {
                &&& self.index@[key] < self.slots@.len()
                &&& self.slots@[self.index@[key] as int].key@ == key
            }
    }

    /// The entries held, by key.
    pub(crate) closed spec fn view(&self) -> Map<Seq<char>, Entry> {
        Map::new(
            |key: Seq<char>| self.index@.contains_key(key),
            |key: Seq<char>| self.slots@[self.index@[key] as int].data@,
        )
    }

    /// The keys of all slots, in the order of the slots.
    spec fn keys(&self) -> Seq<Seq<char>> {
        Seq::new(self.slots@.len(), |i: int| self.slots@[i].key@)
    }

    /// A table holds finitely many entries.
    pub(crate) proof fn lemma_finite(&self)
        requires
            self.wf(),
        ensures
            self@.dom().finite(),
    {
        let keys = self.keys();
        vstd::seq_lib::seq_to_set_is_finite(keys);
        assert forall|key: Seq<char>| self@.dom().contains(key) implies keys.to_set().contains(
            key,
        ) by {
            assert(keys[self.index@[key] as int] == key);
        }
        assert forall|key: Seq<char>| keys.to_set().contains(key) implies self@.dom().contains(
            key,
        ) by {
            let i = choose|i: int| 0 <= i < keys.len() && keys[i] == key;
            assert(self.slots@[i].key@ == key);
        }
        assert(self@.dom() =~= keys.to_set());
    }

    /// A table that holds nothing.
    pub(crate) fn new() -> (table: Table)
        ensures
            table.wf(),
            table@ == Map::<Seq<char>, Entry>::empty(),
    {
        Table { slots: Vec::new(), index: StringHashMap::new() }
    }

    /// The number of entries held.
    pub(crate) fn len(&self) -> (n: usize)
        requires
            self.wf(),
        ensures
            self@.dom().finite(),
            n == self@.len(),
    {
        broadcast use vstd::hash_map::group_hash_map_axioms;

        proof {
            self.lemma_finite();
            assert(self@.dom() =~= self.index@.dom());
        }
        self.index.len()
    }

    /// The entry under `key`, if there is one.
    pub(crate) fn find(&self, key: &str) -> (found: Option<&Data>)
        requires
            self.wf(),
        ensures
            match found {
                Some(data) => self@.contains_key(key@) && data@ == self@[key@],
                None => !self@.contains_key(key@),
            },
    {
        match self.index.get(key) {
            Some(at) => Some(&self.slots[*at].data),
            None => None,
        }
    }

    /// Puts `data` under `key`, in place of what was there.
    pub(crate) fn put(&mut self, key: String, data: Data)
        requires
            old(self).wf(),
        ensures
            final(self).wf(),
            final(self)@ == old(self)@.insert(key@, data@),
    {
        match self.index.get(key.as_str()) {
            Some(at) => {
                let at: usize = *at;
                self.slots[at] = Slot { key, data };
            },
            None => {
                let at: usize = self.slots.len();
                self.index.insert(key.clone(), at);
                self.slots.push(Slot { key, data });
            },
        }
    }

    /// Takes out the slot at `at`; the last slot moves into its place.
    fn remove_at(&mut self, at: usize)
        requires
            old(self).wf(),
            at < old(self).slots@.len(),
        ensures
            final(self).wf(),
            final(self)@ == old(self)@.remove(old(self).slots@[at as int].key@),
            final(self).slots@.len() == old(self).slots@.len() - 1,
            forall|i: int| 0 <= i < at ==> final(self).slots@[i] == old(self).slots@[i],
    {
        let last: usize = self.slots.len() - 1;
        let removed = self.slots.swap_remove(at);
        self.index.remove(removed.key.as_str());
        if at < last {
            let moved: String = self.slots[at].key.clone();
            self.index.insert(moved, at);
        }
    }

    /// Takes out the entry under `key`, if there is one.
    pub(crate) fn remove(&mut self, key: &str)
        requires
            old(self).wf(),
        ensures
            final(self).wf(),
            final(self)@ == old(self)@.remove(key@),
    {
        match self.index.get(key) {
            Some(at) => {
                let at: usize = *at;
                self.remove_at(at);
            },
            None => {},
        }
    }

    /// Takes out every entry that is gone at `now`.
    pub(crate) fn sweep(&mut self, now: &Timestamp)
        requires
            old(self).wf(),
        ensures
            final(self).wf(),
            final(self)@ == swept(old(self)@, now.nanos()),
    {
        let mut at: usize = 0;
        while at < self.slots.len()
            invariant
                self.wf(),
                at <= self.slots@.len(),
                forall|i: int|
                    0 <= i < at ==> !(#[trigger] self.slots@[i]).data@.expired_at(now.nanos()),
                forall|key: Seq<char>| #[trigger]
                    self@.contains_key(key) ==> old(self)@.contains_key(key) && self@[key] == old(
                        self,
                    )@[key],
                forall|key: Seq<char>|
                    old(self)@.contains_key(key) && !(#[trigger] old(self)@[key]).expired_at(
                        now.nanos(),
                    ) ==> self@.contains_key(key),
            decreases self.slots@.len() - at,
        {
            if self.slots[at].data.is_expired_at(now) {
                self.remove_at(at);
            } else {
                at = at + 1;
            }
        }
    }
}

} // verus!
