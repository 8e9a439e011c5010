//! The store over the in-memory backend: get/set/delete, prefix and range
//! scans, selector validation.

use stupid_simple_kv::backend::{KvBackend, MemoryBackend};
use stupid_simple_kv::kv::Kv;
use stupid_simple_kv::kv_error::KvError;
use stupid_simple_kv::kv_key::IntoKey;

#[test]
fn set_and_get_bytes() {
    let mut kv = Kv::new(MemoryBackend::new());
    let tup = (1001u64, "foo".to_string());
    kv.set(&tup, b"bar".to_vec()).unwrap();
    let out = kv.get(&tup.to_key()).unwrap();
    assert_eq!(out, Some(b"bar".to_vec()));
}

#[test]
fn get_nonexistent_is_none() {
    let kv = Kv::new(MemoryBackend::new());
    let out = kv.get(&(9u64, "not_there".to_string())).unwrap();
    assert_eq!(out, None);
}

#[test]
fn delete_removes_entry() {
    let mut kv = Kv::new(MemoryBackend::new());
    let tup = (512u64, "z".to_string());
    kv.set(&tup, vec![1]).unwrap();
    let del = kv.delete(&tup.to_key()).unwrap();
    assert!(del.is_some());
    let (key, val) = del.unwrap();
    assert_eq!(key.0, tup.to_key().0);
    assert_eq!(val, vec![1]);
    assert!(kv.get(&tup).unwrap().is_none());
}

#[test]
fn delete_missing_is_none() {
    let mut kv = Kv::new(MemoryBackend::new());
    assert!(kv.delete(&(1u64,)).unwrap().is_none());
}

#[test]
fn overwrite_keeps_last_value() {
    let mut kv = Kv::new(MemoryBackend::new());
    let tup = (17u64, "a".to_string());
    kv.set(&tup, vec![123]).unwrap();
    kv.set(&tup, vec![200]).unwrap();
    assert_eq!(kv.get(&tup).unwrap(), Some(vec![200]));
}

#[test]
fn prefix_scan_returns_exactly_the_prefixed_keys() {
    let mut kv = Kv::new(MemoryBackend::new());
    for i in 0..10i64 {
        kv.set(&(1u64, i), vec![i as u8]).unwrap();
    }
    for j in 0..10i64 {
        kv.set(&(2u64, j), vec![100 + j as u8]).unwrap();
    }
    let results = kv.list().prefix(&(1u64,)).entries().unwrap();
    assert_eq!(results.len(), 10);
    for (idx, (key, val)) in results.iter().enumerate() {
        assert_eq!(key.0, (1u64, idx as i64).to_key().0);
        assert_eq!(val, &vec![idx as u8]);
    }
}

#[test]
fn range_scan_is_end_exclusive() {
    let mut kv = Kv::new(MemoryBackend::new());
    for i in 1..=5i64 {
        kv.set(&(99u64, i), vec![(i * 10) as u8]).unwrap();
    }
    let results = kv
        .list()
        .start(&(99u64, 2i64))
        .end(&(99u64, 5i64))
        .entries()
        .unwrap();
    let got: Vec<u8> = results.into_iter().map(|(_k, v)| v[0]).collect();
    assert_eq!(got, vec![20, 30, 40]);
}

#[test]
fn all_three_selectors_are_invalid() {
    let mut kv = Kv::new(MemoryBackend::new());
    kv.set(&(1u64,), vec![0]).unwrap();
    let err = kv
        .list()
        .prefix(&(1u64,))
        .start(&(1u64,))
        .end(&(2u64,))
        .entries()
        .unwrap_err();
    assert!(matches!(err, KvError::InvalidSelector));
}

#[test]
fn no_selectors_scan_the_whole_keyspace() {
    let mut kv = Kv::new(MemoryBackend::new());
    for i in 0..5u64 {
        kv.set(&(i,), vec![i as u8]).unwrap();
    }
    let all = kv.list().entries().unwrap();
    assert_eq!(all.len(), 5);
    let all2 = kv.entries().unwrap();
    assert_eq!(all2.len(), 5);
}

#[test]
fn start_wins_over_prefix() {
    let mut kv = Kv::new(MemoryBackend::new());
    for i in 0..4u64 {
        kv.set(&(1u64, i), vec![i as u8]).unwrap();
    }
    kv.set(&(2u64, 0u64), vec![9]).unwrap();
    // With both a prefix and a start, the start is the lower bound and the
    // prefix's implicit upper bound is dropped.
    let results = kv
        .list()
        .prefix(&(1u64,))
        .start(&(1u64, 2u64))
        .entries()
        .unwrap();
    let got: Vec<u8> = results.into_iter().map(|(_k, v)| v[0]).collect();
    assert_eq!(got, vec![2, 3, 9]);
}

#[test]
fn prefix_and_end_scan() {
    let mut kv = Kv::new(MemoryBackend::new());
    for i in 0..4u64 {
        kv.set(&(1u64, i), vec![i as u8]).unwrap();
    }
    let results = kv
        .list()
        .prefix(&(1u64,))
        .end(&(1u64, 2u64))
        .entries()
        .unwrap();
    let got: Vec<u8> = results.into_iter().map(|(_k, v)| v[0]).collect();
    assert_eq!(got, vec![0, 1]);
}

#[test]
fn clear_empties_the_backend() {
    let mut kv = Kv::new(MemoryBackend::new());
    for i in 0..5i64 {
        kv.set(&(777u64, i), vec![i as u8]).unwrap();
    }
    kv.backend.clear().unwrap();
    assert_eq!(kv.entries().unwrap().len(), 0);
}

#[test]
fn entries_come_back_in_key_order() {
    let mut kv = Kv::new(MemoryBackend::new());
    kv.set(&(3u64,), vec![3]).unwrap();
    kv.set(&(1u64,), vec![1]).unwrap();
    kv.set(&(2u64,), vec![2]).unwrap();
    let got: Vec<u8> = kv.entries().unwrap().into_iter().map(|(_k, v)| v[0]).collect();
    assert_eq!(got, vec![1, 2, 3]);
}

#[test]
fn error_messages_describe_the_failure() {
    assert_eq!(
        KvError::InvalidSelector.message(),
        "Invalid selector provided - Provide any one or two of start, end, prefix, not all"
    );
    assert_eq!(
        KvError::BackendError("down".to_string()).message(),
        "Backend error: down"
    );
}
