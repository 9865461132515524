use ckb_chain::{FundingExclusion, TxHash};

fn hash(b: u8) -> TxHash {
    TxHash::new([b; 32])
}

#[test]
fn add_then_remove_leaves_no_trace() {
    let mut ex = FundingExclusion::new();
    ex.add_txs(&vec![hash(7)]);
    assert!(ex.contains(&hash(7)));
    ex.remove(&hash(7));
    assert!(!ex.contains(&hash(7)));
}

#[test]
fn adding_twice_is_adding_once() {
    let mut once = FundingExclusion::new();
    once.add_txs(&vec![hash(1), hash(2)]);
    let mut twice = FundingExclusion::new();
    twice.add_txs(&vec![hash(1), hash(2)]);
    twice.add_txs(&vec![hash(1), hash(2)]);
    for b in 0..4u8 {
        assert_eq!(once.contains(&hash(b)), twice.contains(&hash(b)));
    }
    twice.remove(&hash(1));
    assert!(!twice.contains(&hash(1)));
    assert!(twice.contains(&hash(2)));
}

#[test]
fn removing_absent_hash_changes_nothing() {
    let mut ex = FundingExclusion::new();
    ex.insert(hash(3));
    ex.remove(&hash(4));
    assert!(ex.contains(&hash(3)));
    assert!(!ex.contains(&hash(4)));
}

#[test]
fn hashes_differing_in_last_byte_are_distinct() {
    let mut a = [9u8; 32];
    let b = a;
    a[31] = 10;
    assert!(!TxHash::new(a).same_as(&TxHash::new(b)));
    assert!(TxHash::new(b).same_as(&TxHash::new(b)));
    let mut ex = FundingExclusion::new();
    ex.insert(TxHash::new(a));
    assert!(!ex.contains(&TxHash::new(b)));
}
