//! The store as mathematics: a map from keys to entries, and what each operation makes of it.
//!
//! Time is an integer count of nanoseconds from the Unix epoch, negative before it.

use crate::clock::NANOS_PER_SEC;
use vstd::prelude::*;

verus! {

/// What is kept under one key.
pub struct Entry {
    /// The stored value.
    pub value: Seq<char>,
    /// The moment from which the entry is gone.
    pub expires_at: int,
}

impl Entry {
    /// Whether the entry is gone at `now`: an entry lives strictly before its deadline.
    pub open spec fn expired_at(self, now: int) -> bool {
        now >= self.expires_at
    }
}

/// The deadline of an entry written at `now` to live for `ttl` seconds.
pub open spec fn deadline(now: int, ttl: u64) -> int {
    now + ttl * NANOS_PER_SEC
}

/// The entry that a write of `value` at `now` with `ttl` seconds to live leaves behind.
pub open spec fn written(value: Seq<char>, ttl: u64, now: int) -> Entry {
    Entry { value, expires_at: deadline(now, ttl) }
}

/// The entries after `key` was set at `now`: whatever was under `key` is replaced.
pub open spec fn after_set(
    entries: Map<Seq<char>, Entry>,
    key: Seq<char>,
    value: Seq<char>,
    ttl: u64,
    now: int,
) -> Map<Seq<char>, Entry> {
    entries.insert(key, written(value, ttl, now))
}

/// The entries after `key` was deleted.
pub open spec fn after_delete(entries: Map<Seq<char>, Entry>, key: Seq<char>) -> Map<
    Seq<char>,
    Entry,
> {
    entries.remove(key)
}

/// Whether a read of `key` at `now` finds a value: the key is held and its entry still lives.
pub open spec fn readable(entries: Map<Seq<char>, Entry>, key: Seq<char>, now: int) -> bool {
    entries.contains_key(key) && !entries[key].expired_at(now)
}

/// What a read of `key` at `now` returns: the value if it is readable, else the empty string.
pub open spec fn read(entries: Map<Seq<char>, Entry>, key: Seq<char>, now: int) -> Seq<char> {
    if readable(entries, key, now) {
        entries[key].value
    } else {
        Seq::empty()
    }
}

/// The entries after a sweep at `now`: those that still live, unchanged.
pub open spec fn swept(entries: Map<Seq<char>, Entry>, now: int) -> Map<Seq<char>, Entry> {
    Map::new(|key: Seq<char>| readable(entries, key, now), |key: Seq<char>| entries[key])
}

/// One change to the store.
pub enum Op {
    /// `value` is put under `key` at `now`, to live for `ttl` seconds.
    Write { key: Seq<char>, value: Seq<char>, ttl: u64, now: int },
    /// Whatever is under the key `deleted` is taken out.
    Delete { deleted: Seq<char> },
    /// Every entry that is gone at the moment `at` is taken out.
    Sweep { at: int },
}

impl Op {
    /// Whether this change sets `key`.
    pub open spec fn writes(self, key: Seq<char>) -> bool {
        self matches Op::Write { key: written_key, .. } && written_key == key
    }

    /// Whether this change deletes `key`.
    pub open spec fn deletes(self, key: Seq<char>) -> bool {
        self matches Op::Delete { deleted } && deleted == key
    }
}

/// The entries after one change.
pub open spec fn apply(entries: Map<Seq<char>, Entry>, op: Op) -> Map<Seq<char>, Entry> {
    match op {
        Op::Write { key, value, ttl, now } => after_set(entries, key, value, ttl, now),
        Op::Delete { deleted } => after_delete(entries, deleted),
        Op::Sweep { at } => swept(entries, at),
    }
}

/// The entries after the changes of `history`, made one after another from first to last.
pub open spec fn replay(entries: Map<Seq<char>, Entry>, history: Seq<Op>) -> Map<Seq<char>, Entry>
    decreases history.len(),
{
    if history.len() == 0 {
        entries
    } else {
        apply(replay(entries, history.drop_last()), history.last())
    }
}

} // verus!
