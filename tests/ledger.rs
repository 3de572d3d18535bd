use ecoblock_api::ledger::{BlockRecord, Ledger, MintError, SignedBody};

fn signed(id: &str) -> SignedBody {
    SignedBody { id: id.to_string(), signature: format!("sig-{}", id) }
}

fn mint(ledger: &mut Ledger, id: &str, ts: u64) -> BlockRecord {
    let body = ledger.block_body(ts, format!("payload-{}", id));
    match ledger.commit_block(body, Ok(signed(id))) {
        Ok(rec) => rec,
        Err(_) => panic!("mint of {} failed", id),
    }
}

#[test]
fn empty_ledger_mints_genesis() {
    let mut ledger = Ledger::new();
    assert!(ledger.select_tips().is_empty());
    let rec = mint(&mut ledger, "g", 1);
    assert!(rec.parents.is_empty());
    assert_eq!(ledger.len(), 1);
    assert_eq!(rec.id, "g");
    assert_eq!(rec.signature, "sig-g");
    assert_eq!(rec.data, "payload-g");
    assert_eq!(rec.timestamp, 1);
}

#[test]
fn single_record_is_the_only_parent() {
    let mut ledger = Ledger::new();
    mint(&mut ledger, "A", 100);
    assert_eq!(ledger.select_tips(), vec!["A".to_string()]);
    let rec = mint(&mut ledger, "N", 300);
    assert_eq!(rec.parents, vec!["A".to_string()]);
    assert_eq!(ledger.len(), 2);
}

#[test]
fn two_latest_records_are_parents_in_order() {
    let mut ledger = Ledger::new();
    mint(&mut ledger, "A", 100);
    mint(&mut ledger, "B", 200);
    mint(&mut ledger, "C", 150);
    assert_eq!(ledger.select_tips(), vec!["B".to_string(), "C".to_string()]);
    let rec = mint(&mut ledger, "N", 400);
    assert_eq!(rec.parents, vec!["B".to_string(), "C".to_string()]);
    assert_eq!(ledger.len(), 4);
    let stored = ledger.get(&"N".to_string()).unwrap();
    assert_eq!(stored.parents, vec!["B".to_string(), "C".to_string()]);
}

#[test]
fn equal_timestamps_prefer_later_insertion() {
    let mut ledger = Ledger::new();
    mint(&mut ledger, "A", 100);
    mint(&mut ledger, "B", 100);
    mint(&mut ledger, "C", 100);
    assert_eq!(ledger.select_tips(), vec!["C".to_string(), "B".to_string()]);
}

#[test]
fn tip_selection_is_repeatable() {
    let mut ledger = Ledger::new();
    mint(&mut ledger, "A", 5);
    mint(&mut ledger, "B", 9);
    mint(&mut ledger, "C", 7);
    mint(&mut ledger, "D", 1);
    let first = ledger.select_tips();
    let second = ledger.select_tips();
    assert_eq!(first, second);
    assert_eq!(first, vec!["B".to_string(), "C".to_string()]);
}

#[test]
fn tips_never_exceed_two() {
    let mut ledger = Ledger::new();
    for i in 0..6u64 {
        mint(&mut ledger, &format!("b{}", i), 10 * i);
        let expected = if ledger.len() < 2 { ledger.len() } else { 2 };
        assert_eq!(ledger.select_tips().len(), expected);
    }
    assert_eq!(ledger.select_tips(), vec!["b5".to_string(), "b4".to_string()]);
}

#[test]
fn signing_failure_inserts_nothing() {
    let mut ledger = Ledger::new();
    mint(&mut ledger, "A", 100);
    let body = ledger.block_body(200, "x".to_string());
    match ledger.commit_block(body, Err("no key".to_string())) {
        Err(MintError::Signing(msg)) => assert_eq!(msg, "no key"),
        _ => panic!("expected a signing error"),
    }
    assert_eq!(ledger.len(), 1);
}

#[test]
fn duplicate_identifier_is_refused() {
    let mut ledger = Ledger::new();
    mint(&mut ledger, "A", 100);
    let body = ledger.block_body(200, "x".to_string());
    assert!(matches!(ledger.commit_block(body, Ok(signed("A"))), Err(MintError::DuplicateId)));
    assert_eq!(ledger.len(), 1);
    assert_eq!(ledger.get(&"A".to_string()).unwrap().timestamp, 100);
}

#[test]
fn lookup_miss_is_none() {
    let mut ledger = Ledger::new();
    mint(&mut ledger, "A", 100);
    assert!(ledger.get(&"Z".to_string()).is_none());
}

#[test]
fn duplicate_copies_every_field() {
    let mut ledger = Ledger::new();
    mint(&mut ledger, "A", 100);
    let rec = mint(&mut ledger, "B", 200);
    let copy = rec.duplicate();
    assert_eq!(copy.id, rec.id);
    assert_eq!(copy.parents, rec.parents);
    assert_eq!(copy.timestamp, rec.timestamp);
    assert_eq!(copy.data, rec.data);
    assert_eq!(copy.signature, rec.signature);
}
