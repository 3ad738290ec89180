use graphcast::errors::MessageError;
use graphcast::ledger::{check_and_update, prepare_nonces, DedupLedger, NoncesMap, StringMap};

fn recorded(nonces: &NoncesMap, identifier: &str, address: &str) -> Option<i64> {
    match nonces.get(&identifier.to_string()) {
        Some(inner) => inner.get(&address.to_string()).copied(),
        None => None,
    }
}

#[test]
fn string_map_insert_and_get() {
    let mut map: StringMap<i64> = StringMap::new();
    assert_eq!(map.len(), 0);
    map.insert("a".to_string(), 1);
    map.insert("b".to_string(), 2);
    map.insert("a".to_string(), 3);
    assert_eq!(map.len(), 2);
    assert_eq!(map.get(&"a".to_string()), Some(&3));
    assert_eq!(map.get(&"b".to_string()), Some(&2));
    assert_eq!(map.get(&"c".to_string()), None);
    assert!(map.contains(&"b".to_string()));
    assert!(!map.contains(&"c".to_string()));
}

#[test]
fn string_map_duplicate_is_independent() {
    let mut map: StringMap<i64> = StringMap::new();
    map.insert("k".to_string(), 7);
    let mut copy = map.duplicate();
    copy.insert("k".to_string(), 9);
    assert_eq!(map.get(&"k".to_string()), Some(&7));
    assert_eq!(copy.get(&"k".to_string()), Some(&9));
}

#[test]
fn prepare_nonces_updates_one_binding() {
    let mut per_subgraph: StringMap<i64> = StringMap::new();
    per_subgraph.insert("0xaaa".to_string(), 4);
    let updated = prepare_nonces(&per_subgraph, "0xbbb".to_string(), 8);
    assert_eq!(updated.get(&"0xaaa".to_string()), Some(&4));
    assert_eq!(updated.get(&"0xbbb".to_string()), Some(&8));
    assert_eq!(per_subgraph.get(&"0xbbb".to_string()), None);
}

#[test]
fn first_observation_registers_but_rejects() {
    let mut nonces: NoncesMap = StringMap::new();
    let r1 = check_and_update(&mut nonces, &"sg-1".to_string(), &"0xaaa".to_string(), 1000);
    assert!(matches!(r1, Err(MessageError::FirstObservationFromSender)));
    assert_eq!(recorded(&nonces, "sg-1", "0xaaa"), Some(1000));
    let r2 = check_and_update(&mut nonces, &"sg-1".to_string(), &"0xaaa".to_string(), 1000);
    assert!(r2.is_ok());
}

#[test]
fn nonce_monotonicity() {
    let mut nonces: NoncesMap = StringMap::new();
    let _ = check_and_update(&mut nonces, &"sg-1".to_string(), &"0xaaa".to_string(), 50);
    let accepted = check_and_update(&mut nonces, &"sg-1".to_string(), &"0xaaa".to_string(), 60);
    assert!(accepted.is_ok());
    let stale = check_and_update(&mut nonces, &"sg-1".to_string(), &"0xaaa".to_string(), 55);
    assert!(matches!(stale, Err(MessageError::StaleNonce)));
    assert_eq!(recorded(&nonces, "sg-1", "0xaaa"), Some(60));
}

#[test]
fn end_to_end_nonce_scenario() {
    let mut nonces: NoncesMap = StringMap::new();
    let first = check_and_update(&mut nonces, &"sg-1".to_string(), &"0xAAA".to_string(), 1000);
    assert!(matches!(first, Err(MessageError::FirstObservationFromSender)));
    assert_eq!(recorded(&nonces, "sg-1", "0xAAA"), Some(1000));
    let second = check_and_update(&mut nonces, &"sg-1".to_string(), &"0xAAA".to_string(), 1005);
    assert!(second.is_ok());
    assert_eq!(recorded(&nonces, "sg-1", "0xAAA"), Some(1005));
    let replay = check_and_update(&mut nonces, &"sg-1".to_string(), &"0xAAA".to_string(), 1002);
    assert!(matches!(replay, Err(MessageError::StaleNonce)));
    assert_eq!(recorded(&nonces, "sg-1", "0xAAA"), Some(1005));
}

#[test]
fn separate_pairs_do_not_interfere() {
    let mut nonces: NoncesMap = StringMap::new();
    let _ = check_and_update(&mut nonces, &"sg-1".to_string(), &"0xaaa".to_string(), 10);
    let first_other = check_and_update(&mut nonces, &"sg-1".to_string(), &"0xbbb".to_string(), 3);
    assert!(matches!(
        first_other,
        Err(MessageError::FirstObservationFromSender)
    ));
    let first_other_subgraph =
        check_and_update(&mut nonces, &"sg-2".to_string(), &"0xaaa".to_string(), 3);
    assert!(matches!(
        first_other_subgraph,
        Err(MessageError::FirstObservationFromSender)
    ));
    assert_eq!(recorded(&nonces, "sg-1", "0xaaa"), Some(10));
    assert_eq!(recorded(&nonces, "sg-1", "0xbbb"), Some(3));
    assert_eq!(recorded(&nonces, "sg-2", "0xaaa"), Some(3));
}

#[test]
fn dedup_ledger_marks_and_finds() {
    let mut ids = DedupLedger::new();
    assert!(!ids.seen(&"m1".to_string()));
    ids.mark_seen("m1".to_string());
    assert!(ids.seen(&"m1".to_string()));
    assert!(!ids.seen(&"m2".to_string()));
}
