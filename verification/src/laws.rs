//! What holds of the store whatever it holds and whatever the clock reads.
//!
//! The laws speak of the store's view and of the functions of [`crate::model`], in which the
//! contracts of [`crate::store::Store`] are written: what is shown here of `after_set`, `read`
//! and the others is shown of every call of `set_at`, `get_at` and the others.

use crate::clock::NANOS_PER_SEC;
use crate::model::{after_delete, after_set, deadline, read, replay, swept, written, Entry, Op};
use vstd::prelude::*;

verus! {

/// A key that holds nothing reads as the empty string, at any time.
pub proof fn law_missing_key_reads_empty(entries: Map<Seq<char>, Entry>, key: Seq<char>, now: int)
    requires
        !entries.contains_key(key),
    ensures
        read(entries, key, now) == Seq::<char>::empty(),
{
}

/// An entry is never read at or after its deadline.
pub proof fn law_gone_entry_reads_empty(entries: Map<Seq<char>, Entry>, key: Seq<char>, now: int)
    requires
        entries.contains_key(key),
        now >= entries[key].expires_at,
    ensures
        read(entries, key, now) == Seq::<char>::empty(),
{
}

/// A key that no change of a history sets holds nothing after it, if it held nothing before;
/// so it reads as the empty string in a store that started empty.
pub proof fn law_never_set_key_is_missing(
    entries: Map<Seq<char>, Entry>,
    history: Seq<Op>,
    key: Seq<char>,
    now: int,
)
    requires
        !entries.contains_key(key),
        forall|i: int| 0 <= i < history.len() ==> !(#[trigger] history[i]).writes(key),
    ensures
        !replay(entries, history).contains_key(key),
        read(replay(entries, history), key, now) == Seq::<char>::empty(),
    decreases history.len(),
{
    if history.len() > 0 {
        law_never_set_key_is_missing(entries, history.drop_last(), key, now);
    }
}

/// A key that a history deletes and does not set again holds nothing after it, whatever it
/// held before.
pub proof fn law_deleted_key_is_missing(
    entries: Map<Seq<char>, Entry>,
    history: Seq<Op>,
    deleted_at: int,
    key: Seq<char>,
    now: int,
)
    requires
        0 <= deleted_at < history.len(),
        history[deleted_at].deletes(key),
        forall|i: int| deleted_at < i < history.len() ==> !(#[trigger] history[i]).writes(key),
    ensures
        !replay(entries, history).contains_key(key),
        read(replay(entries, history), key, now) == Seq::<char>::empty(),
    decreases history.len(),
{
    if deleted_at < history.len() - 1 {
        law_deleted_key_is_missing(entries, history.drop_last(), deleted_at, key, now);
    }
}

/// A key set with a positive time to live reads as the value set, from the moment of the set
/// until its deadline.
pub proof fn law_set_then_get(
    entries: Map<Seq<char>, Entry>,
    key: Seq<char>,
    value: Seq<char>,
    ttl: u64,
    now: int,
    later: int,
)
    requires
        ttl > 0,
        now <= later < deadline(now, ttl),
    ensures
        read(after_set(entries, key, value, ttl, now), key, now) == value,
        read(after_set(entries, key, value, ttl, now), key, later) == value,
{
}

/// A key set with a time to live of zero reads as the empty string from the moment of the
/// set on.
pub proof fn law_zero_ttl_reads_empty(
    entries: Map<Seq<char>, Entry>,
    key: Seq<char>,
    value: Seq<char>,
    now: int,
    later: int,
)
    requires
        now <= later,
    ensures
        read(after_set(entries, key, value, 0, now), key, later) == Seq::<char>::empty(),
{
}

/// A second set of a key leaves nothing of the first: the store is as if only the second had
/// been made, and the key reads by the second value and deadline alone.
pub proof fn law_last_set_wins(
    entries: Map<Seq<char>, Entry>,
    key: Seq<char>,
    first_value: Seq<char>,
    first_ttl: u64,
    first_now: int,
    second_value: Seq<char>,
    second_ttl: u64,
    second_now: int,
    later: int,
)
    ensures
        after_set(
            after_set(entries, key, first_value, first_ttl, first_now),
            key,
            second_value,
            second_ttl,
            second_now,
        ) == after_set(entries, key, second_value, second_ttl, second_now),
        read(
            after_set(
                after_set(entries, key, first_value, first_ttl, first_now),
                key,
                second_value,
                second_ttl,
                second_now,
            ),
            key,
            later,
        ) == (if later < deadline(second_now, second_ttl) {
            second_value
        } else {
            Seq::<char>::empty()
        }),
{
}

/// A deleted key reads as the empty string; deleting it again, or deleting a key that holds
/// nothing, changes nothing.
pub proof fn law_delete(entries: Map<Seq<char>, Entry>, key: Seq<char>, now: int)
    ensures
        read(after_delete(entries, key), key, now) == Seq::<char>::empty(),
        after_delete(after_delete(entries, key), key) == after_delete(entries, key),
        !entries.contains_key(key) ==> after_delete(entries, key) == entries,
{
}

/// A key set to live for one second reads as the value set until a second has passed, and as
/// the empty string from then on.
pub proof fn law_one_second_to_live(
    entries: Map<Seq<char>, Entry>,
    key: Seq<char>,
    value: Seq<char>,
    now: int,
    later: int,
)
    requires
        now <= later,
    ensures
        read(after_set(entries, key, value, 1, now), key, now) == value,
        read(after_set(entries, key, value, 1, now), key, later) == (if later < now
            + NANOS_PER_SEC {
            value
        } else {
            Seq::<char>::empty()
        }),
{
}

/// A sweep takes out the entries that are gone when it is made, and those alone: a key whose
/// entry was gone holds nothing afterwards and reads as the empty string at any time; a key
/// whose entry still lived keeps it and reads as before.
pub proof fn law_sweep(entries: Map<Seq<char>, Entry>, now: int, key: Seq<char>, later: int)
    ensures
        swept(entries, now).contains_key(key) ==> entries.contains_key(key),
        entries.contains_key(key) && entries[key].expired_at(now) ==> {
            &&& !swept(entries, now).contains_key(key)
            &&& read(swept(entries, now), key, later) == Seq::<char>::empty()
        },
        entries.contains_key(key) && !entries[key].expired_at(now) ==> {
            &&& swept(entries, now).contains_key(key)
            &&& swept(entries, now)[key] == entries[key]
            &&& read(swept(entries, now), key, now) == entries[key].value
            &&& read(swept(entries, now), key, later) == read(entries, key, later)
        },
{
}

/// A sweep is not seen by any read made at or after it: every key reads as it would have
/// without the sweep.
pub proof fn law_sweep_is_unseen(entries: Map<Seq<char>, Entry>, now: int, key: Seq<char>, later: int)
    requires
        now <= later,
    ensures
        read(swept(entries, now), key, later) == read(entries, key, later),
{
}

/// A sweep never adds to what is held: of finitely many entries it leaves no more than there
/// were, and as many only where none was gone.
pub proof fn law_sweep_never_grows(entries: Map<Seq<char>, Entry>, now: int)
    requires
        entries.dom().finite(),
    ensures
        swept(entries, now).dom().finite(),
        swept(entries, now).len() <= entries.len(),
        swept(entries, now).len() == entries.len() <==> swept(entries, now) == entries,
{
    let kept = swept(entries, now);
    vstd::set_lib::lemma_set_subset_finite(entries.dom(), kept.dom());
    vstd::set_lib::lemma_len_subset(kept.dom(), entries.dom());
    if kept.len() == entries.len() {
        vstd::set_lib::lemma_subset_equality(kept.dom(), entries.dom());
        assert(kept =~= entries);
    }
}

/// Sets and deletes of other keys leave a key as it was: after a history of such changes it
/// holds what it held before, or nothing if it held nothing.
pub proof fn law_other_keys_are_left_alone(
    entries: Map<Seq<char>, Entry>,
    history: Seq<Op>,
    key: Seq<char>,
)
    requires
        forall|i: int|
            #![trigger history[i]]
            0 <= i < history.len() ==> !(history[i] is Sweep) && !history[i].writes(key)
                && !history[i].deletes(key),
    ensures
        replay(entries, history).contains_key(key) == entries.contains_key(key),
        entries.contains_key(key) ==> replay(entries, history)[key] == entries[key],
    decreases history.len(),
{
    if history.len() > 0 {
        law_other_keys_are_left_alone(entries, history.drop_last(), key);
    }
}

/// Sets of keys that all differ lose nothing, in whatever order they are made: after a
/// history of such sets each key holds what its own set wrote.
pub proof fn law_sets_of_distinct_keys(entries: Map<Seq<char>, Entry>, history: Seq<Op>)
    requires
        forall|i: int| 0 <= i < history.len() ==> #[trigger] history[i] is Write,
        forall|i: int, j: int|
            0 <= i < j < history.len() ==> history[i]->key != history[j]->key,
    ensures
        forall|i: int|
            #![trigger history[i]]
            0 <= i < history.len() ==> {
                &&& replay(entries, history).contains_key(history[i]->key)
                &&& replay(entries, history)[history[i]->key] == written(
                    history[i]->value,
                    history[i]->ttl,
                    history[i]->now,
                )
            },
    decreases history.len(),
{
    if history.len() > 0 {
        let earlier = history.drop_last();
        law_sets_of_distinct_keys(entries, earlier);
        assert forall|i: int|
            #![trigger history[i]]
            0 <= i < history.len() implies {
            &&& replay(entries, history).contains_key(history[i]->key)
            &&& replay(entries, history)[history[i]->key] == written(
                history[i]->value,
                history[i]->ttl,
                history[i]->now,
            )
        } by {
            if i < earlier.len() {
                assert(earlier[i] == history[i]);
            }
        }
    }
}

/// The order of sets of keys that all differ does not matter: two histories that hold the same
/// such sets lead to the same store.
pub proof fn law_order_of_distinct_sets(
    entries: Map<Seq<char>, Entry>,
    first: Seq<Op>,
    second: Seq<Op>,
)
    requires
        forall|i: int| 0 <= i < first.len() ==> #[trigger] first[i] is Write,
        forall|i: int, j: int| 0 <= i < j < first.len() ==> first[i]->key != first[j]->key,
        forall|i: int| 0 <= i < second.len() ==> #[trigger] second[i] is Write,
        forall|i: int, j: int| 0 <= i < j < second.len() ==> second[i]->key != second[j]->key,
        forall|op: Op| first.contains(op) <==> second.contains(op),
    ensures
        replay(entries, first) == replay(entries, second),
{
    let left = replay(entries, first);
    let right = replay(entries, second);
    law_sets_of_distinct_keys(entries, first);
    law_sets_of_distinct_keys(entries, second);
    assert forall|key: Seq<char>|
        #![trigger left.contains_key(key)]
        #![trigger right.contains_key(key)]
        left.contains_key(key) == right.contains_key(key) && (left.contains_key(key)
            ==> left[key] == right[key]) by {
        if exists|i: int| 0 <= i < first.len() && (#[trigger] first[i]).writes(key) {
            // The set of `key` in `first` is in `second` too, and both stores hold what it wrote.
            let i = choose|i: int| 0 <= i < first.len() && (#[trigger] first[i]).writes(key);
            assert(second.contains(first[i]));
        } else {
            // Neither history sets `key`: a set of it in `second` would be in `first` too.
            assert forall|j: int| 0 <= j < second.len() implies !(#[trigger] second[j]).writes(
                key,
            ) by {
                if second[j].writes(key) {
                    assert(first.contains(second[j]));
                }
            }
            law_other_keys_are_left_alone(entries, first, key);
            law_other_keys_are_left_alone(entries, second, key);
        }
    }
}

/// After sets of keys that all differ, made in whatever order, each key reads as the value
/// set for it, from the moment of its set until its deadline.
pub proof fn law_distinct_sets_read_back(
    entries: Map<Seq<char>, Entry>,
    history: Seq<Op>,
    i: int,
    later: int,
)
    requires
        forall|i: int| 0 <= i < history.len() ==> #[trigger] history[i] is Write,
        forall|i: int, j: int|
            0 <= i < j < history.len() ==> history[i]->key != history[j]->key,
        0 <= i < history.len(),
        history[i]->now <= later < deadline(history[i]->now, history[i]->ttl),
    ensures
        read(replay(entries, history), history[i]->key, later) == history[i]->value,
{
    law_sets_of_distinct_keys(entries, history);
}

} // verus!
