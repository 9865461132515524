use ckb_chain::{lock_args_from_digest, CkbChainState, CkbConfig, Script, ScriptHashType, TxHash};

fn config() -> CkbConfig {
    CkbConfig { rpc_url: "http://127.0.0.1:8114".to_string(), sighash_code_hash: [0x9b; 32] }
}

fn key() -> [u8; 32] {
    let mut k = [0u8; 32];
    k[31] = 1;
    k
}

#[test]
fn lock_args_are_first_twenty_digest_bytes() {
    let mut d = [0u8; 32];
    for (i, b) in d.iter_mut().enumerate() {
        *b = i as u8;
    }
    assert_eq!(lock_args_from_digest(&d), (0u8..20).collect::<Vec<u8>>());
}

#[test]
fn state_from_key_uses_its_signature_lock() {
    let state = CkbChainState::new(config(), key()).expect("valid key");
    let sk = secp256k1::SecretKey::from_secret_bytes(key()).unwrap();
    let pk = sk.public_key().serialize();
    let digest = ckb_hash::blake2b_256(pk);
    assert_eq!(state.funding_source_lock_script.args, digest[0..20].to_vec());
    assert_ne!(state.funding_source_lock_script.args, pk[0..20].to_vec());
    assert_eq!(state.funding_source_lock_script.code_hash, [0x9b; 32]);
    assert_eq!(state.funding_source_lock_script.hash_type, ScriptHashType::Type);
    assert_eq!(state.secret_key, key());
    assert!(!state.funding_exclusion.contains(&TxHash::new([0u8; 32])));
}

#[test]
fn invalid_secret_key_is_refused() {
    assert!(CkbChainState::new(config(), [0u8; 32]).is_none());
    assert!(CkbChainState::new(config(), [0xff; 32]).is_none());
}

#[test]
fn funding_context_copies_state() {
    let state = CkbChainState::new(config(), key()).unwrap();
    let target = Script { code_hash: [1; 32], hash_type: ScriptHashType::Data1, args: vec![1, 2, 3] };
    let ctx = state.build_funding_context(&target);
    assert_eq!(ctx.secret_key, key());
    assert_eq!(ctx.rpc_url, "http://127.0.0.1:8114");
    assert_eq!(ctx.funding_source_lock_script.args, state.funding_source_lock_script.args);
    assert_eq!(ctx.funding_cell_lock_script.args, vec![1, 2, 3]);
    assert_eq!(ctx.funding_cell_lock_script.hash_type, ScriptHashType::Data1);
}

#[test]
fn state_keeps_exclusion_across_messages() {
    let mut state = CkbChainState::new(config(), key()).unwrap();
    let a = TxHash::new([2; 32]);
    let b = TxHash::new([3; 32]);
    state.add_txs(&vec![a, b]);
    state.remove_tx(&a);
    assert!(!state.funding_exclusion.contains(&a));
    assert!(state.funding_exclusion.contains(&b));
}

fn group_order() -> [u8; 32] {
    let mut n = [0xffu8; 32];
    let low: [u8; 16] = [
        0xba, 0xae, 0xdc, 0xe6, 0xaf, 0x48, 0xa0, 0x3b, 0xbf, 0xd2, 0x5e, 0x8c, 0xd0, 0x36, 0x41, 0x41,
    ];
    n[15] = 0xfe;
    n[16..].copy_from_slice(&low);
    n
}

#[test]
fn secret_key_bounds_follow_group_order() {
    let n = group_order();
    assert!(CkbChainState::new(config(), n).is_none());
    let mut below = n;
    below[31] -= 1;
    let state = CkbChainState::new(config(), below).expect("n - 1 is a valid key");
    assert_eq!(state.funding_source_lock_script.args.len(), 20);
    let mut above = n;
    above[31] += 1;
    assert!(CkbChainState::new(config(), above).is_none());
}
