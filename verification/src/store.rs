//! The store and its entries.

use crate::clock::{Timestamp, NANOS_PER_SEC};
use crate::model::{after_delete, after_set, read, readable, swept, written, Entry};
use crate::table::Table;
use vstd::prelude::*;

verus! {

/// A stored value and the moment it expires.
#[derive(Debug)]
pub struct Data {
    /// The value.
    pub data: String,
    /// The moment from which the value is gone, in nanoseconds from the Unix epoch.
    pub expires_in: i128,
}

impl View for Data {
    type V = Entry;

    open spec fn view(&self) -> Entry {
        Entry { value: self.data@, expires_at: self.expires_in as int }
    }
}

impl Data {
    /// The entry that holds `value` from `now` for `ttl` seconds. With a `ttl` of zero it is
    /// gone as soon as `now` is reached.
    pub fn new(value: String, ttl: u64, now: &Timestamp) -> (entry: Data)
        ensures
            entry@ == written(value@, ttl, now.nanos()),
    {
        assert(ttl * NANOS_PER_SEC <= u64::MAX * NANOS_PER_SEC) by (nonlinear_arith);
        let lifetime: i128 = (ttl as i128) * (NANOS_PER_SEC as i128);
        Data { data: value, expires_in: now.as_nanos() + lifetime }
    }

    /// Whether the entry is gone at `now`.
    pub fn is_expired_at(&self, now: &Timestamp) -> (expired: bool)
        ensures
            expired == self@.expired_at(now.nanos()),
    {
        now.as_nanos() >= self.expires_in
    }

    /// Whether the entry is gone by the system's clock, read once during the call.
    pub fn is_expired(&self) -> (expired: bool)
        ensures
            exists|now: Timestamp| expired == self@.expired_at(#[trigger] now.nanos()),
    {
        let now = Timestamp::now();
        self.is_expired_at(&now)
    }
}

/// What a read of one key finds.
#[derive(Debug, PartialEq, Eq)]
pub enum Lookup {
    /// The key holds this value, and its entry still lives.
    Found(String),
    /// The key holds an entry that is gone.
    Expired,
    /// The key holds nothing.
    Missing,
}

impl Lookup {
    /// Whether this is what a read of `key` at `now` finds among `entries`.
    pub open spec fn is_read_of(self, entries: Map<Seq<char>, Entry>, key: Seq<char>, now: int) -> bool {
        match self {
            Lookup::Found(value) => readable(entries, key, now) && value@ == entries[key].value,
            Lookup::Expired => entries.contains_key(key) && entries[key].expired_at(now),
            Lookup::Missing => !entries.contains_key(key),
        }
    }

    /// The value found, or the empty string where none was.
    pub fn into_value(self) -> (value: String)
        ensures
            value@ == (match self {
                Lookup::Found(found) => found@,
                _ => Seq::<char>::empty(),
            }),
    {
        match self {
            Lookup::Found(found) => found,
            _ => String::new(),
        }
    }
}

/// Entries by key, each with its deadline.
///
/// As a map from keys to [`Entry`] values (its view) the store changes only by `set`, `delete`
/// and a sweep. Reading never changes it: an entry that is gone is reported as such and stays
/// where it is until it is deleted, overwritten or swept.
pub struct Store {
    table: Table,
}

impl View for Store {
    type V = Map<Seq<char>, Entry>;

    closed spec fn view(&self) -> Map<Seq<char>, Entry> {
        self.table@
    }
}

impl Store {
    #[verifier::type_invariant]
    spec fn well_formed(self) -> bool {
        self.table.wf()
    }

    /// A store that holds nothing.
    pub fn new() -> (store: Store)
        ensures
            store@ == Map::<Seq<char>, Entry>::empty(),
    {
        Store { table: Table::new() }
    }

    /// The number of entries held, the gone ones that were not yet swept among them. The
    /// store never holds more than finitely many.
    pub fn len(&self) -> (n: usize)
        ensures
            self@.dom().finite(),
            n == self@.len(),
    {
        proof {
            use_type_invariant(self);
        }
        self.table.len()
    }

    /// What a read of `key` at `now` finds. The store is left as it is.
    pub fn lookup_at(&self, key: &str, now: &Timestamp) -> (found: Lookup)
        ensures
            found.is_read_of(self@, key@, now.nanos()),
    {
        proof {
            use_type_invariant(self);
        }
        match self.table.find(key) {
            Some(entry) => {
                if entry.is_expired_at(now) {
                    Lookup::Expired
                } else {
                    Lookup::Found(entry.data.clone())
                }
            },
            None => Lookup::Missing,
        }
    }

    /// The value under `key` at `now`, or the empty string if the key holds nothing or its
    /// entry is gone. The store is left as it is.
    pub fn get_at(&self, key: &str, now: &Timestamp) -> (value: String)
        ensures
            value@ == read(self@, key@, now.nanos()),
    {
        self.lookup_at(key, now).into_value()
    }

    /// Puts `value` under `key` at `now`, to live for `expires_in` seconds, in place of
    /// whatever the key held.
    pub fn set_at(&mut self, key: String, value: String, expires_in: u64, now: &Timestamp)
        ensures
            final(self)@ == after_set(old(self)@, key@, value@, expires_in, now.nanos()),
    {
        proof {
            use_type_invariant(&*self);
        }
        let entry = Data::new(value, expires_in, now);
        let mut table = Table::new();
        std::mem::swap(&mut table, &mut self.table);
        table.put(key, entry);
        self.table = table;
    }

    /// Takes out every entry that is gone at `now`, and no other.
    pub fn cleanup_expired_at(&mut self, now: &Timestamp)
        ensures
            final(self)@ == swept(old(self)@, now.nanos()),
    {
        proof {
            use_type_invariant(&*self);
        }
        let mut table = Table::new();
        std::mem::swap(&mut table, &mut self.table);
        table.sweep(now);
        self.table = table;
    }

    /// What a read of `key` finds by the system's clock, read once during the call.
    pub fn lookup(&self, key: &str) -> (found: Lookup)
        ensures
            exists|now: Timestamp| found.is_read_of(self@, key@, #[trigger] now.nanos()),
    {
        let now = Timestamp::now();
        self.lookup_at(key, &now)
    }
}

/// The store's operations by the system's clock.
///
/// Each operation that depends on the time reads the clock once, and does what the operation
/// of [`Store`] with the same name and `_at` does at that reading.
pub trait RedisStore: View<V = Map<Seq<char>, Entry>> {
    /// Puts `value` under `key`, to live for `expires_in` seconds from now, in place of
    /// whatever the key held.
    fn set(&mut self, key: String, value: String, expires_in: u64)
        ensures
            exists|now: Timestamp|
                final(self)@ == after_set(old(self)@, key@, value@, expires_in, #[trigger] now.nanos()),
    ;

    /// The value under `key`, or the empty string if the key holds nothing or its entry is
    /// gone by now.
    fn get(&self, key: String) -> (value: String)
        ensures
            exists|now: Timestamp| value@ == read(self@, key@, #[trigger] now.nanos()),
    ;

    /// Takes out the entry under `key`; where there is none, nothing changes.
    fn delete(&mut self, key: String)
        ensures
            final(self)@ == after_delete(old(self)@, key@),
    ;

    /// Takes out every entry that is gone by now, and no other.
    fn cleanup_expired(&mut self)
        ensures
            exists|now: Timestamp| final(self)@ == swept(old(self)@, #[trigger] now.nanos()),
    ;
}

impl RedisStore for Store {
    fn set(&mut self, key: String, value: String, expires_in: u64) {
        let now = Timestamp::now();
        self.set_at(key, value, expires_in, &now);
    }

    fn get(&self, key: String) -> (value: String) {
        let now = Timestamp::now();
        self.get_at(key.as_str(), &now)
    }

    fn delete(&mut self, key: String) {
        proof {
            use_type_invariant(&*self);
        }
        let mut table = Table::new();
        std::mem::swap(&mut table, &mut self.table);
        table.remove(key.as_str());
        self.table = table;
    }

    fn cleanup_expired(&mut self) {
        let now = Timestamp::now();
        self.cleanup_expired_at(&now);
    }
}

} // verus!
