use statechain_client::transaction::{
    attach_signature, build_partial_sig_payload, build_public_nonce_payload, create,
    finalize_and_verify, p2tr_output_script, p2tr_script,
};
use statechain_client::CError;
use bitcoin::hashes::Hash as _;

fn single_key() -> (secp256k1::Keypair, Vec<u8>) {
    let kp = secp256k1::Keypair::from_seckey_slice(&[6u8; 32]).unwrap();
    let xonly = kp.x_only_public_key().0.serialize().to_vec();
    (kp, xonly)
}

#[test]
fn payload_builders_fill_fields() {
    let nonce_req = build_public_nonce_payload("sc-123");
    assert_eq!(nonce_req.statechain_id, "sc-123");

    let psig_req = build_partial_sig_payload("sc-123", &vec![0xab, 0xcd], true, &vec![0x01, 0x02]);
    assert_eq!(psig_req.statechain_id, "sc-123");
    assert_eq!(psig_req.keyaggcoef, "abcd");
    assert_eq!(psig_req.negate_seckey, 1);
    assert_eq!(psig_req.session, "0102");

    let psig_req2 = build_partial_sig_payload("x", &vec![], false, &vec![]);
    assert_eq!(psig_req2.negate_seckey, 0);
    assert_eq!(psig_req2.keyaggcoef, "");
}

#[test]
fn p2tr_script_shape() {
    let key = vec![0x42u8; 32];
    let script = p2tr_script(&key);
    assert_eq!(script.len(), 34);
    assert_eq!(script[0], 0x51);
    assert_eq!(script[1], 0x20);
    assert_eq!(&script[2..], key.as_slice());
}

#[test]
fn sighash_is_stable_across_builds() {
    // Transaction determinism: fixed fields give a fixed sighash.
    let (_, xonly) = single_key();
    let script = p2tr_script(&xonly);
    let t1 = create(812000, &vec![0x11; 32], 1, 100_000, &script, &xonly, 99_000, &script).unwrap();
    let t2 = create(812000, &vec![0x11; 32], 1, 100_000, &script, &xonly, 99_000, &script).unwrap();
    assert_eq!(t1.sighash, t2.sighash);
    assert_eq!(t1.sighash.len(), 32);
    // And a different locktime commits to a different sighash.
    let t3 = create(812001, &vec![0x11; 32], 1, 100_000, &script, &xonly, 99_000, &script).unwrap();
    assert_ne!(t1.sighash, t3.sighash);
}

#[test]
fn sighash_matches_independent_computation() {
    let (_, xonly) = single_key();
    let script = p2tr_script(&xonly);
    let t = create(812000, &vec![0x11; 32], 1, 100_000, &script, &xonly, 99_000, &script).unwrap();

    let tx = bitcoin::Transaction {
        version: bitcoin::transaction::Version(2),
        lock_time: bitcoin::absolute::LockTime::from_consensus(812000),
        input: vec![bitcoin::TxIn {
            previous_output: bitcoin::OutPoint {
                txid: bitcoin::Txid::from_byte_array([0x11; 32]),
                vout: 1,
            },
            script_sig: bitcoin::ScriptBuf::new(),
            sequence: bitcoin::Sequence(0xFFFFFFFF),
            witness: bitcoin::Witness::new(),
        }],
        output: vec![bitcoin::TxOut {
            value: bitcoin::Amount::from_sat(99_000),
            script_pubkey: bitcoin::ScriptBuf::from_bytes(script.clone()),
        }],
    };
    let prevout = bitcoin::TxOut {
        value: bitcoin::Amount::from_sat(100_000),
        script_pubkey: bitcoin::ScriptBuf::from_bytes(script.clone()),
    };
    let mut cache = bitcoin::sighash::SighashCache::new(&tx);
    let expected = cache
        .taproot_key_spend_signature_hash(
            0,
            &bitcoin::sighash::Prevouts::All(&[prevout]),
            bitcoin::sighash::TapSighashType::All,
        )
        .unwrap();
    assert_eq!(t.sighash, expected.to_byte_array().to_vec());
}

#[test]
fn attach_signature_builds_witness_and_strips_metadata() {
    let (_, xonly) = single_key();
    let script = p2tr_script(&xonly);
    let mut t = create(812000, &vec![0x11; 32], 0, 100_000, &script, &xonly, 99_000, &script).unwrap();
    assert_eq!(t.sighash_type, Some(1));
    assert_eq!(t.tap_internal_key.as_ref().unwrap(), &xonly);
    let sig = vec![0xaa; 64];
    attach_signature(&mut t, &sig);
    // SIGHASH_ALL is not the default type, so the witness carries the flag.
    let w = t.final_witness.as_ref().unwrap();
    assert_eq!(w.len(), 65);
    assert_eq!(&w[..64], sig.as_slice());
    assert_eq!(w[64], 1);
    assert!(t.sighash_type.is_none());
    assert!(t.tap_internal_key.is_none());
    assert_eq!(t.tap_key_sig.as_ref().unwrap(), &sig);
}

#[test]
fn finalize_verifies_signature_and_prevout() {
    let (kp, xonly) = single_key();
    let script = p2tr_script(&xonly);
    let mut t = create(812000, &vec![0x11; 32], 0, 100_000, &script, &xonly, 99_000, &script).unwrap();
    let sig = kp.sign_schnorr_no_aux_rand(&t.sighash).serialize().to_vec();
    attach_signature(&mut t, &sig);
    let bytes = finalize_and_verify(&t, &xonly).unwrap();

    // The encoding must parse back to the transaction that was built.
    let tx: bitcoin::Transaction = bitcoin::consensus::encode::deserialize(&bytes).unwrap();
    assert_eq!(tx.input.len(), 1);
    assert_eq!(tx.output.len(), 1);
    assert_eq!(tx.lock_time.to_consensus_u32(), 812000);
    assert_eq!(tx.output[0].value.to_sat(), 99_000);
    assert_eq!(tx.output[0].script_pubkey.as_bytes(), script.as_slice());
    assert_eq!(tx.input[0].previous_output.vout, 0);
    assert_eq!(tx.input[0].witness.len(), 1);
    assert_eq!(tx.input[0].witness.nth(0).unwrap().len(), 65);
}

#[test]
fn finalize_rejects_missing_witness() {
    let (_, xonly) = single_key();
    let script = p2tr_script(&xonly);
    let t = create(812000, &vec![0x11; 32], 0, 100_000, &script, &xonly, 99_000, &script).unwrap();
    assert!(matches!(finalize_and_verify(&t, &xonly), Err(CError::Verification)));
}

#[test]
fn finalize_rejects_wrong_prevout_script() {
    let (kp, xonly) = single_key();
    let script = p2tr_script(&vec![0x13u8; 32]);
    let mut t = create(812000, &vec![0x11; 32], 0, 100_000, &script, &xonly, 99_000, &script).unwrap();
    let sig = kp.sign_schnorr_no_aux_rand(&t.sighash).serialize().to_vec();
    attach_signature(&mut t, &sig);
    // The prevout does not pay to the expected output key.
    assert!(matches!(finalize_and_verify(&t, &xonly), Err(CError::Verification)));
}

#[test]
fn finalize_rejects_tampered_signature() {
    let (kp, xonly) = single_key();
    let script = p2tr_script(&xonly);
    let mut t = create(812000, &vec![0x11; 32], 0, 100_000, &script, &xonly, 99_000, &script).unwrap();
    let mut sig = kp.sign_schnorr_no_aux_rand(&t.sighash).serialize().to_vec();
    sig[10] ^= 0xff;
    attach_signature(&mut t, &sig);
    assert!(matches!(finalize_and_verify(&t, &xonly), Err(CError::Verification)));
}

#[test]
fn p2tr_output_script_matches_address_script() {
    // The key-path output script of an internal key must equal the script of
    // the address the bitcoin crate derives for it.
    let (_, xonly) = single_key();
    let script = p2tr_output_script(&xonly).unwrap();
    let secp = bitcoin::secp256k1::Secp256k1::new();
    let internal = bitcoin::secp256k1::XOnlyPublicKey::from_slice(&xonly).unwrap();
    let addr = bitcoin::Address::p2tr(&secp, internal, None, bitcoin::KnownHrp::Testnets);
    assert_eq!(script, addr.script_pubkey().to_bytes());
}
