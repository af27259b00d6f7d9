use statechain_client::key_derivation::{
    generate_new_key, generate_or_get_seed, get_next_address_index, insert_agg_key_data,
    update_auth_key_data, KeyData, KeyStore,
};
use statechain_client::Network;
use bitcoin::bip32::{ChildNumber, Xpriv, Xpub};

fn zero_seed_store() -> KeyStore {
    KeyStore {
        seed: Some(vec![0u8; 32]),
        rows: Vec::new(),
    }
}

fn share(change_index: u32, address_index: u32, tag: u8) -> KeyData {
    KeyData {
        token_id: Some(format!("token-{}", tag)),
        secret_key: vec![tag; 32],
        public_key: vec![tag; 33],
        fingerprint: vec![tag; 4],
        derivation_path: vec![0x80000000 + 86, 0x80000000, 0x80000000, change_index, address_index],
        change_index,
        address_index,
    }
}

#[test]
fn seed_is_created_once_and_kept() {
    let mut store = KeyStore::new();
    let s1 = generate_or_get_seed(&mut store);
    assert_eq!(s1.len(), 32);
    let s2 = generate_or_get_seed(&mut store);
    assert_eq!(s1, s2);
    assert_eq!(store.seed.as_ref().unwrap(), &s1);
}

#[test]
fn derive_is_deterministic() {
    // Determinism: a fixed seed, path and indices always give the same share.
    let mut store = zero_seed_store();
    let a = generate_new_key(&mut store, "m/86h/0h/0h", 0, 0, Network::Signet).unwrap();
    let b = generate_new_key(&mut store, "m/86h/0h/0h", 0, 0, Network::Signet).unwrap();
    assert_eq!(a.secret_key, b.secret_key);
    assert_eq!(a.public_key, b.public_key);
    assert_eq!(a.fingerprint, b.fingerprint);
    assert_eq!(a.derivation_path, b.derivation_path);
}

#[test]
fn derive_matches_independent_bip32() {
    // The derived share must agree with BIP32 derivation done directly.
    let mut store = zero_seed_store();
    let kd = generate_new_key(&mut store, "m/86h/0h/0h", 0, 0, Network::Signet).unwrap();

    let secp = bitcoin::secp256k1::Secp256k1::new();
    let root = Xpriv::new_master(bitcoin::NetworkKind::Test, &[0u8; 32]).unwrap();
    let path: Vec<ChildNumber> = vec![
        ChildNumber::from_hardened_idx(86).unwrap(),
        ChildNumber::from_hardened_idx(0).unwrap(),
        ChildNumber::from_hardened_idx(0).unwrap(),
        ChildNumber::from_normal_idx(0).unwrap(),
        ChildNumber::from_normal_idx(0).unwrap(),
    ];
    let child = root.derive_priv(&secp, &path).unwrap();
    assert_eq!(kd.secret_key, child.private_key.secret_bytes().to_vec());
    assert_eq!(
        kd.public_key,
        Xpub::from_priv(&secp, &child).public_key.serialize().to_vec()
    );
    assert_eq!(kd.fingerprint, root.fingerprint(&secp).to_bytes().to_vec());
}

#[test]
fn derive_distinct_paths_same_fingerprint() {
    let mut store = zero_seed_store();
    let agg = generate_new_key(&mut store, "m/86h/0h/0h", 0, 0, Network::Signet).unwrap();
    let auth = generate_new_key(&mut store, "m/89h/0h/0h", 0, 0, Network::Signet).unwrap();
    assert_eq!(agg.fingerprint, auth.fingerprint);
    assert_ne!(agg.secret_key, auth.secret_key);
    assert_ne!(agg.public_key, auth.public_key);
    assert_ne!(agg.derivation_path, auth.derivation_path);
}

#[test]
fn derive_rejects_malformed_path() {
    let mut store = zero_seed_store();
    assert!(generate_new_key(&mut store, "86h/0h", 0, 0, Network::Signet).is_err());
}

#[test]
fn next_index_counts_up_without_duplicates() {
    // Index monotonicity: claiming each issued index yields 0, 1, 2, ...
    let mut store = KeyStore::new();
    let mut issued = Vec::new();
    for round in 0..4u32 {
        let idx = get_next_address_index(&store, 0);
        assert_eq!(idx, round);
        assert!(!issued.contains(&idx));
        issued.push(idx);
        insert_agg_key_data(&mut store, &share(0, idx, round as u8 + 1));
    }
}

#[test]
fn next_index_tracks_chains_separately() {
    let mut store = KeyStore::new();
    insert_agg_key_data(&mut store, &share(0, 0, 1));
    insert_agg_key_data(&mut store, &share(0, 1, 2));
    insert_agg_key_data(&mut store, &share(1, 5, 3));
    assert_eq!(get_next_address_index(&store, 0), 2);
    assert_eq!(get_next_address_index(&store, 1), 6);
    assert_eq!(get_next_address_index(&store, 2), 0);
}

#[test]
fn auth_update_hits_matching_row_only() {
    let mut store = KeyStore::new();
    insert_agg_key_data(&mut store, &share(0, 0, 1));
    insert_agg_key_data(&mut store, &share(0, 1, 2));
    let auth = share(0, 0, 9);
    update_auth_key_data(&mut store, &auth, &vec![1u8; 33]);
    assert_eq!(
        store.rows[0].auth_pubkey.as_ref().unwrap(),
        &vec![9u8; 33]
    );
    assert_eq!(
        store.rows[0].auth_seckey.as_ref().unwrap(),
        &vec![9u8; 32]
    );
    assert!(store.rows[1].auth_pubkey.is_none());
}
