//! The store at given clock readings.

use std::collections::HashMap;
use ttl_store::clock::Timestamp;
use ttl_store::store::{Lookup, RedisStore, Store};

fn at(secs: u64, subsec_nanos: u32) -> Timestamp {
    Timestamp { before_epoch: false, secs, subsec_nanos }
}

fn before_epoch(secs: u64, subsec_nanos: u32) -> Timestamp {
    Timestamp { before_epoch: true, secs, subsec_nanos }
}

#[test]
fn new_store_holds_nothing() {
    let store = Store::new();
    assert_eq!(store.len(), 0);
    assert_eq!(store.get_at("a", &at(0, 0)), "");
    assert_eq!(store.lookup_at("a", &at(0, 0)), Lookup::Missing);
}

#[test]
fn key_never_set_reads_empty() {
    let mut store = Store::new();
    store.set_at("a".to_string(), "1".to_string(), 10, &at(100, 0));
    store.set_at("b".to_string(), "2".to_string(), 10, &at(100, 0));
    store.delete("b".to_string());
    store.cleanup_expired_at(&at(105, 0));
    assert_eq!(store.get_at("c", &at(105, 0)), "");
    assert_eq!(store.lookup_at("c", &at(105, 0)), Lookup::Missing);
    assert_eq!(store.get_at("", &at(105, 0)), "");
    assert_eq!(store.get_at("A", &at(105, 0)), "");
    assert_eq!(store.get_at("a ", &at(105, 0)), "");
}

#[test]
fn set_then_get_returns_the_value() {
    let mut store = Store::new();
    let now = at(1_700_000_000, 123_456_789);
    store.set_at("k".to_string(), "v".to_string(), 5, &now);
    assert_eq!(store.get_at("k", &now), "v");
    assert_eq!(store.lookup_at("k", &now), Lookup::Found("v".to_string()));
    assert_eq!(store.len(), 1);
}

#[test]
fn value_is_read_until_the_deadline_and_not_from_it() {
    let mut store = Store::new();
    store.set_at("k".to_string(), "v".to_string(), 5, &at(100, 250));
    assert_eq!(store.get_at("k", &at(100, 250)), "v");
    assert_eq!(store.get_at("k", &at(103, 0)), "v");
    assert_eq!(store.get_at("k", &at(105, 249)), "v");
    assert_eq!(store.get_at("k", &at(105, 250)), "");
    assert_eq!(store.get_at("k", &at(105, 251)), "");
    assert_eq!(store.get_at("k", &at(1_000_000, 0)), "");
    assert_eq!(store.lookup_at("k", &at(105, 249)), Lookup::Found("v".to_string()));
    assert_eq!(store.lookup_at("k", &at(105, 250)), Lookup::Expired);
}

#[test]
fn zero_ttl_is_gone_at_once() {
    let mut store = Store::new();
    let now = at(100, 0);
    store.set_at("k".to_string(), "v".to_string(), 0, &now);
    assert_eq!(store.get_at("k", &now), "");
    assert_eq!(store.get_at("k", &at(100, 1)), "");
    assert_eq!(store.get_at("k", &at(200, 0)), "");
    assert_eq!(store.lookup_at("k", &now), Lookup::Expired);
    assert_eq!(store.len(), 1);
}

#[test]
fn zero_ttl_replaces_a_living_entry() {
    let mut store = Store::new();
    store.set_at("k".to_string(), "old".to_string(), 100, &at(100, 0));
    store.set_at("k".to_string(), "new".to_string(), 0, &at(101, 0));
    assert_eq!(store.get_at("k", &at(101, 0)), "");
    assert_eq!(store.lookup_at("k", &at(101, 0)), Lookup::Expired);
    assert_eq!(store.len(), 1);
}

#[test]
fn second_set_replaces_value_and_deadline() {
    let mut store = Store::new();
    store.set_at("k".to_string(), "first".to_string(), 100, &at(100, 0));
    store.set_at("k".to_string(), "second".to_string(), 1, &at(110, 0));
    assert_eq!(store.len(), 1);
    assert_eq!(store.get_at("k", &at(110, 0)), "second");
    assert_eq!(store.get_at("k", &at(110, 999_999_999)), "second");
    assert_eq!(store.get_at("k", &at(111, 0)), "");
    assert_eq!(store.get_at("k", &at(150, 0)), "");
}

#[test]
fn second_set_can_lengthen_the_life() {
    let mut store = Store::new();
    store.set_at("k".to_string(), "first".to_string(), 1, &at(100, 0));
    store.set_at("k".to_string(), "second".to_string(), 100, &at(100, 500));
    assert_eq!(store.get_at("k", &at(101, 0)), "second");
    assert_eq!(store.get_at("k", &at(200, 499)), "second");
    assert_eq!(store.get_at("k", &at(200, 500)), "");
}

#[test]
fn set_revives_a_gone_key() {
    let mut store = Store::new();
    store.set_at("k".to_string(), "first".to_string(), 1, &at(100, 0));
    assert_eq!(store.get_at("k", &at(102, 0)), "");
    store.set_at("k".to_string(), "second".to_string(), 1, &at(102, 0));
    assert_eq!(store.get_at("k", &at(102, 0)), "second");
    assert_eq!(store.len(), 1);
}

#[test]
fn delete_then_get_reads_empty() {
    let mut store = Store::new();
    let now = at(100, 0);
    store.set_at("k".to_string(), "v".to_string(), 10, &now);
    store.delete("k".to_string());
    assert_eq!(store.get_at("k", &now), "");
    assert_eq!(store.lookup_at("k", &now), Lookup::Missing);
    assert_eq!(store.len(), 0);
}

#[test]
fn second_delete_changes_nothing() {
    let mut store = Store::new();
    let now = at(100, 0);
    store.set_at("k".to_string(), "v".to_string(), 10, &now);
    store.set_at("other".to_string(), "w".to_string(), 10, &now);
    store.delete("k".to_string());
    store.delete("k".to_string());
    assert_eq!(store.get_at("k", &now), "");
    assert_eq!(store.get_at("other", &now), "w");
    assert_eq!(store.len(), 1);
}

#[test]
fn delete_of_a_missing_key_changes_nothing() {
    let mut store = Store::new();
    store.delete("k".to_string());
    assert_eq!(store.len(), 0);
    store.set_at("a".to_string(), "1".to_string(), 10, &at(100, 0));
    store.delete("k".to_string());
    assert_eq!(store.len(), 1);
    assert_eq!(store.get_at("a", &at(100, 0)), "1");
}

#[test]
fn one_second_ttl() {
    let mut store = Store::new();
    let now = at(1_000, 0);
    store.set_at("k".to_string(), "v".to_string(), 1, &now);
    assert_eq!(store.get_at("k", &now), "v");
    assert_eq!(store.get_at("k", &at(1_000, 500_000_000)), "v");
    assert_eq!(store.get_at("k", &at(1_000, 999_999_999)), "v");
    assert_eq!(store.get_at("k", &at(1_001, 0)), "");
    assert_eq!(store.get_at("k", &at(1_001, 1)), "");
    assert_eq!(store.get_at("k", &at(2_000, 0)), "");
}

#[test]
fn get_leaves_a_gone_entry_in_place() {
    let mut store = Store::new();
    store.set_at("k".to_string(), "v".to_string(), 1, &at(100, 0));
    assert_eq!(store.get_at("k", &at(200, 0)), "");
    assert_eq!(store.len(), 1);
    assert_eq!(store.lookup_at("k", &at(200, 0)), Lookup::Expired);
    assert_eq!(store.get_at("k", &at(100, 0)), "v");
}

#[test]
fn sweep_takes_out_what_is_gone_and_keeps_the_rest() {
    let mut store = Store::new();
    let start = at(100, 0);
    store.set_at("gone1".to_string(), "a".to_string(), 1, &start);
    store.set_at("live1".to_string(), "b".to_string(), 10, &start);
    store.set_at("gone2".to_string(), "c".to_string(), 0, &start);
    store.set_at("live2".to_string(), "d".to_string(), 6, &start);
    store.set_at("edge".to_string(), "e".to_string(), 5, &start);
    assert_eq!(store.len(), 5);

    let sweep = at(105, 0);
    store.cleanup_expired_at(&sweep);
    assert_eq!(store.len(), 2);
    assert_eq!(store.lookup_at("gone1", &sweep), Lookup::Missing);
    assert_eq!(store.lookup_at("gone2", &sweep), Lookup::Missing);
    assert_eq!(store.lookup_at("edge", &sweep), Lookup::Missing);
    assert_eq!(store.get_at("gone1", &start), "");
    assert_eq!(store.get_at("edge", &start), "");
    assert_eq!(store.get_at("live1", &sweep), "b");
    assert_eq!(store.get_at("live2", &sweep), "d");
    assert_eq!(store.get_at("live2", &at(105, 999_999_999)), "d");
    assert_eq!(store.get_at("live2", &at(106, 0)), "");
}

#[test]
fn sweep_of_a_store_with_nothing_gone_changes_nothing() {
    let mut store = Store::new();
    store.cleanup_expired_at(&at(100, 0));
    assert_eq!(store.len(), 0);
    store.set_at("a".to_string(), "1".to_string(), 10, &at(100, 0));
    store.set_at("b".to_string(), "2".to_string(), 10, &at(100, 0));
    store.cleanup_expired_at(&at(109, 999_999_999));
    assert_eq!(store.len(), 2);
    assert_eq!(store.get_at("a", &at(109, 0)), "1");
    assert_eq!(store.get_at("b", &at(109, 0)), "2");
}

#[test]
fn sweep_takes_out_everything_when_all_is_gone() {
    let mut store = Store::new();
    for i in 0..50u64 {
        store.set_at(format!("k{i}"), format!("v{i}"), i % 3, &at(100, 0));
    }
    assert_eq!(store.len(), 50);
    store.cleanup_expired_at(&at(102, 0));
    assert_eq!(store.len(), 0);
    for i in 0..50u64 {
        assert_eq!(store.lookup_at(&format!("k{i}"), &at(100, 0)), Lookup::Missing);
    }
}

#[test]
fn sweep_keeps_each_living_entry_among_many() {
    let mut store = Store::new();
    for i in 0..200u64 {
        store.set_at(format!("k{i}"), format!("v{i}"), i % 7, &at(100, 0));
    }
    store.cleanup_expired_at(&at(103, 0));
    let mut kept = 0;
    for i in 0..200u64 {
        let found = store.lookup_at(&format!("k{i}"), &at(103, 0));
        if i % 7 > 3 {
            assert_eq!(found, Lookup::Found(format!("v{i}")));
            kept += 1;
        } else {
            assert_eq!(found, Lookup::Missing);
        }
    }
    assert_eq!(store.len(), kept);
}

#[test]
fn delete_among_many_keeps_the_others() {
    let mut store = Store::new();
    let now = at(100, 0);
    for i in 0..100u64 {
        store.set_at(format!("k{i}"), format!("v{i}"), 10, &now);
    }
    for i in (0..100u64).filter(|i| i % 3 == 0) {
        store.delete(format!("k{i}"));
    }
    for i in 0..100u64 {
        let expected = if i % 3 == 0 { String::new() } else { format!("v{i}") };
        assert_eq!(store.get_at(&format!("k{i}"), &now), expected);
    }
    assert_eq!(store.len(), 66);
    store.delete("k99".to_string());
    store.delete("k1".to_string());
    assert_eq!(store.get_at("k1", &now), "");
    assert_eq!(store.get_at("k2", &now), "v2");
    assert_eq!(store.get_at("k98", &now), "v98");
    assert_eq!(store.len(), 65);
}

#[test]
fn sets_of_distinct_keys_in_any_order_all_read_back() {
    let now = at(100, 0);
    let n = 64u64;
    let mut forward = Store::new();
    for i in 0..n {
        forward.set_at(format!("key-{i}"), format!("value-{i}"), 30, &now);
    }
    let mut backward = Store::new();
    for i in (0..n).rev() {
        backward.set_at(format!("key-{i}"), format!("value-{i}"), 30, &now);
    }
    let mut shuffled = Store::new();
    for step in 0..n {
        let i = (step * 37 + 11) % n;
        shuffled.set_at(format!("key-{i}"), format!("value-{i}"), 30, &now);
    }
    for store in [&forward, &backward, &shuffled] {
        assert_eq!(store.len(), 64);
        for i in 0..n {
            assert_eq!(store.get_at(&format!("key-{i}"), &at(129, 0)), format!("value-{i}"));
        }
    }
}

#[test]
fn scenario_at_one_reading() {
    let mut store = Store::new();
    let now = at(100, 0);
    store.set_at("a".to_string(), "1".to_string(), 10, &now);
    store.set_at("b".to_string(), "2".to_string(), 10, &now);
    assert_eq!(store.get_at("a", &now), "1");
    store.delete("a".to_string());
    assert_eq!(store.get_at("a", &now), "");
    assert_eq!(store.get_at("b", &now), "2");
}

#[test]
fn empty_value_is_found_and_reads_like_nothing() {
    let mut store = Store::new();
    let now = at(100, 0);
    store.set_at("k".to_string(), String::new(), 10, &now);
    assert_eq!(store.get_at("k", &now), "");
    assert_eq!(store.lookup_at("k", &now), Lookup::Found(String::new()));
    assert_eq!(store.lookup_at("k", &at(110, 0)), Lookup::Expired);
    assert_eq!(store.lookup_at("other", &now), Lookup::Missing);
}

#[test]
fn empty_key_is_a_key() {
    let mut store = Store::new();
    let now = at(100, 0);
    store.set_at(String::new(), "v".to_string(), 10, &now);
    assert_eq!(store.get_at("", &now), "v");
    store.delete(String::new());
    assert_eq!(store.get_at("", &now), "");
}

#[test]
fn keys_and_values_beyond_ascii() {
    let mut store = Store::new();
    let now = at(100, 0);
    store.set_at("clé".to_string(), "värde ✓".to_string(), 10, &now);
    store.set_at("cle".to_string(), "plain".to_string(), 10, &now);
    assert_eq!(store.get_at("clé", &now), "värde ✓");
    assert_eq!(store.get_at("cle", &now), "plain");
    assert_eq!(store.len(), 2);
}

#[test]
fn readings_before_the_epoch() {
    let mut store = Store::new();
    store.set_at("k".to_string(), "v".to_string(), 5, &before_epoch(10, 0));
    assert_eq!(store.get_at("k", &before_epoch(10, 0)), "v");
    assert_eq!(store.get_at("k", &before_epoch(5, 1)), "v");
    assert_eq!(store.get_at("k", &before_epoch(5, 0)), "");
    assert_eq!(store.get_at("k", &at(0, 0)), "");
    assert_eq!(store.get_at("k", &before_epoch(20, 0)), "v");
}

#[test]
fn life_across_the_epoch() {
    let mut store = Store::new();
    store.set_at("k".to_string(), "v".to_string(), 3, &before_epoch(1, 500_000_000));
    assert_eq!(store.get_at("k", &at(0, 0)), "v");
    assert_eq!(store.get_at("k", &at(1, 499_999_999)), "v");
    assert_eq!(store.get_at("k", &at(1, 500_000_000)), "");
}

#[test]
fn longest_ttl_at_the_farthest_reading() {
    let mut store = Store::new();
    let farthest = Timestamp { before_epoch: false, secs: u64::MAX, subsec_nanos: u32::MAX };
    store.set_at("k".to_string(), "v".to_string(), u64::MAX, &farthest);
    assert_eq!(store.get_at("k", &farthest), "v");
    store.set_at("z".to_string(), "w".to_string(), 0, &farthest);
    assert_eq!(store.get_at("z", &farthest), "");
    store.cleanup_expired_at(&farthest);
    assert_eq!(store.len(), 1);
}

#[test]
fn agrees_with_a_plain_map_over_many_operations() {
    let mut store = Store::new();
    let mut plain: HashMap<String, (String, u64)> = HashMap::new();
    let mut state: u64 = 0x2545_f491_4f6c_dd1d;
    let mut clock: u64 = 1_000;

    for step in 0..20_000u64 {
        state = state.wrapping_mul(6_364_136_223_846_793_005).wrapping_add(1_442_695_040_888_963_407);
        let choice = (state >> 60) % 8;
        let key = format!("k{}", (state >> 33) % 40);
        let ttl = (state >> 20) % 6;
        clock += (state >> 10) % 2;
        let now = at(clock, 0);
        match choice {
            0..=2 => {
                let value = format!("v{step}");
                store.set_at(key.clone(), value.clone(), ttl, &now);
                plain.insert(key, (value, clock + ttl));
            }
            3 => {
                store.delete(key.clone());
                plain.remove(&key);
            }
            4 => {
                store.cleanup_expired_at(&now);
                plain.retain(|_, (_, deadline)| clock < *deadline);
            }
            _ => {
                let expected = match plain.get(&key) {
                    Some((value, deadline)) if clock < *deadline => Lookup::Found(value.clone()),
                    Some(_) => Lookup::Expired,
                    None => Lookup::Missing,
                };
                assert_eq!(store.lookup_at(&key, &now), expected);
            }
        }
        assert_eq!(store.len(), plain.len());
    }

    let now = at(clock, 0);
    for i in 0..40 {
        let key = format!("k{i}");
        let expected = match plain.get(&key) {
            Some((value, deadline)) if clock < *deadline => value.clone(),
            _ => String::new(),
        };
        assert_eq!(store.get_at(&key, &now), expected);
    }
}
