use statechain_client::musig::{
    aggregate, aggregate_signatures, partial_sign_step, receive_server_nonce,
    receive_server_partial_sig, start_session, taproot_output_key,
};
use statechain_client::{CError, Network};

use bitcoin::hashes::Hash as _;
use secp256k1::musig::{AggregatedNonce, KeyAggCache, SessionSecretRand};

fn test_key(tag: u8) -> (Vec<u8>, Vec<u8>, secp256k1::Keypair) {
    let kp = secp256k1::Keypair::from_seckey_slice(&[tag; 32]).unwrap();
    let sk = kp.secret_bytes().to_vec();
    let pk = kp.public_key().serialize().to_vec();
    (sk, pk, kp)
}

/// The co-signer's view, built independently of the library: the same two
/// keys aggregated in canonical (lexicographic) order and taproot-tweaked.
fn server_cache(pk_a: &[u8], pk_b: &[u8]) -> KeyAggCache {
    let (lo, hi) = if pk_a <= pk_b { (pk_a, pk_b) } else { (pk_b, pk_a) };
    let ka = secp256k1::PublicKey::from_slice(lo).unwrap();
    let kb = secp256k1::PublicKey::from_slice(hi).unwrap();
    let mut cache = KeyAggCache::new(&[&ka, &kb]);
    let internal =
        bitcoin::secp256k1::XOnlyPublicKey::from_slice(&cache.agg_pk().serialize()).unwrap();
    let tweak = bitcoin::taproot::TapTweakHash::from_key_and_tweak(internal, None);
    let scalar = secp256k1::Scalar::from_be_bytes(tweak.to_byte_array()).unwrap();
    cache.pubkey_xonly_tweak_add(&scalar).unwrap();
    cache
}

#[test]
fn aggregation_is_order_independent() {
    let (_, pk1, _) = test_key(1);
    let (_, pk2, _) = test_key(2);
    let c12 = aggregate(&pk1, &pk2).unwrap();
    let c21 = aggregate(&pk2, &pk1).unwrap();
    assert_eq!(c12.agg_pk, c21.agg_pk);
    assert_eq!(c12.output_key, c21.output_key);
    assert_eq!(c12.key_a, c21.key_a);
    assert_eq!(c12.key_b, c21.key_b);
}

#[test]
fn tweaked_output_key_matches_independent_computation() {
    // Tweak soundness: the library's output key must be bit-identical to the
    // tweak computed from scratch over the same aggregate key.
    let (_, pk1, _) = test_key(1);
    let (_, pk2, _) = test_key(2);
    let ctx = aggregate(&pk1, &pk2).unwrap();

    let mut cache = server_cache(&pk1, &pk2);
    let expected_agg = {
        let (lo, hi) = if pk1 <= pk2 {
            (pk1.clone(), pk2.clone())
        } else {
            (pk2.clone(), pk1.clone())
        };
        let ka = secp256k1::PublicKey::from_slice(&lo).unwrap();
        let kb = secp256k1::PublicKey::from_slice(&hi).unwrap();
        KeyAggCache::new(&[&ka, &kb]).agg_pk().serialize().to_vec()
    };
    assert_eq!(ctx.agg_pk, expected_agg);
    // After the xonly tweak the cache's aggregate key is the output key.
    assert_eq!(ctx.output_key, cache.agg_pk().serialize().to_vec());
}

#[test]
fn taproot_address_matches_bitcoin_crate() {
    let (_, pk1, _) = test_key(1);
    let (_, pk2, _) = test_key(2);
    let ctx = aggregate(&pk1, &pk2).unwrap();
    let (output_key, address) = taproot_output_key(&ctx, Network::Signet).unwrap();
    assert_eq!(output_key, ctx.output_key);

    let secp = bitcoin::secp256k1::Secp256k1::new();
    let internal = bitcoin::secp256k1::XOnlyPublicKey::from_slice(&ctx.agg_pk).unwrap();
    let expected =
        bitcoin::Address::p2tr(&secp, internal, None, bitcoin::KnownHrp::Testnets).to_string();
    assert_eq!(address, expected);
}

#[test]
fn two_round_protocol_round_trip() {
    // A complete two-round run against a mock co-signer yields a signature
    // that verifies against the tweaked aggregate key.
    let (client_sk, client_pk, _) = test_key(1);
    let (_, server_pk, server_kp) = test_key(2);
    let msg = vec![7u8; 32];

    let ctx = aggregate(&client_pk, &server_pk).unwrap();
    let session = start_session(&ctx, &client_pk, &msg).unwrap();
    let client_nonce_bytes = session.pub_nonce.clone();

    // Mock server: generate its nonce over the same aggregation.
    let cache = server_cache(&client_pk, &server_pk);
    let msg_arr: [u8; 32] = msg.as_slice().try_into().unwrap();
    let (server_secnonce, server_pubnonce) = cache.nonce_gen_with_uniform_randomness(
        SessionSecretRand::assume_uniformly_random([9u8; 32]),
        server_kp.public_key(),
        &msg_arr,
        [8u8; 32],
    );
    // The server sends its nonce hex, here with the optional 0x prefix.
    let nonce_hex = format!("0x{}", hex::encode(server_pubnonce.serialize()));
    let nonced = receive_server_nonce(session, &nonce_hex).unwrap();
    assert_eq!(nonced.server_nonce, server_pubnonce.serialize().to_vec());

    let signed = partial_sign_step(&ctx, nonced, &client_sk).unwrap();

    // Mock server: same aggregate nonce, same session, its own partial sig.
    let client_nonce = secp256k1::musig::PublicNonce::from_byte_array(
        client_nonce_bytes.as_slice().try_into().unwrap(),
    )
    .unwrap();
    let agg_nonce = AggregatedNonce::new(&[&client_nonce, &server_pubnonce]);
    let server_session = secp256k1::musig::Session::new(&cache, agg_nonce, &msg_arr);
    let server_psig = server_session.partial_sign(server_secnonce, &server_kp, &cache);
    let psig_hex = hex::encode(server_psig.serialize());

    let verified = receive_server_partial_sig(&ctx, &signed, &psig_hex, &server_pk).unwrap();
    let final_msg = signed.msg.clone();
    let sig = aggregate_signatures(&ctx, &signed, &verified).unwrap();
    assert_eq!(sig.len(), 64);

    // Independent check of the returned signature.
    let out_key = secp256k1::XOnlyPublicKey::from_slice(&ctx.output_key).unwrap();
    let schnorr = secp256k1::schnorr::Signature::from_slice(&sig).unwrap();
    assert!(schnorr.verify(&final_msg, &out_key).is_ok());
}

#[test]
fn tampered_partial_signature_is_rejected() {
    let (client_sk, client_pk, _) = test_key(1);
    let (_, server_pk, server_kp) = test_key(2);
    let msg = vec![7u8; 32];

    let ctx = aggregate(&client_pk, &server_pk).unwrap();
    let session = start_session(&ctx, &client_pk, &msg).unwrap();
    let client_nonce_bytes = session.pub_nonce.clone();

    let cache = server_cache(&client_pk, &server_pk);
    let msg_arr: [u8; 32] = msg.as_slice().try_into().unwrap();
    let (server_secnonce, server_pubnonce) = cache.nonce_gen_with_uniform_randomness(
        SessionSecretRand::assume_uniformly_random([9u8; 32]),
        server_kp.public_key(),
        &msg_arr,
        [8u8; 32],
    );
    let nonce_hex = hex::encode(server_pubnonce.serialize());
    let nonced = receive_server_nonce(session, &nonce_hex).unwrap();
    let signed = partial_sign_step(&ctx, nonced, &client_sk).unwrap();

    let client_nonce = secp256k1::musig::PublicNonce::from_byte_array(
        client_nonce_bytes.as_slice().try_into().unwrap(),
    )
    .unwrap();
    let agg_nonce = AggregatedNonce::new(&[&client_nonce, &server_pubnonce]);
    let server_session = secp256k1::musig::Session::new(&cache, agg_nonce, &msg_arr);
    let server_psig = server_session.partial_sign(server_secnonce, &server_kp, &cache);

    // Flip one bit of the server's partial signature before handing it over.
    let mut tampered = server_psig.serialize().to_vec();
    tampered[5] ^= 0x01;
    let psig_hex = hex::encode(&tampered);
    let res = receive_server_partial_sig(&ctx, &signed, &psig_hex, &server_pk);
    match res {
        Err(CError::Protocol) => {},
        other => panic!("tampered partial signature was not rejected: {:?}", other.is_ok()),
    }
}

#[test]
fn malformed_server_nonce_is_protocol_error() {
    let (_, client_pk, _) = test_key(1);
    let (_, server_pk, _) = test_key(2);
    let ctx = aggregate(&client_pk, &server_pk).unwrap();
    let msg = vec![7u8; 32];
    let session = start_session(&ctx, &client_pk, &msg).unwrap();
    // Odd-length hex is malformed.
    let res = receive_server_nonce(session, "0xabc");
    assert!(matches!(res, Err(CError::Protocol)));
}

#[test]
fn nonce_is_consumed_by_one_signing_call() {
    // The secret nonce lives in the session value, and `partial_sign_step`
    // takes the session by value: after one signing call the session and its
    // nonce are gone, so a second partial-sign over the same nonce does not
    // typecheck. This test exercises the one permitted call.
    let (client_sk, client_pk, _) = test_key(1);
    let (_, server_pk, server_kp) = test_key(2);
    let msg = vec![3u8; 32];
    let ctx = aggregate(&client_pk, &server_pk).unwrap();
    let session = start_session(&ctx, &client_pk, &msg).unwrap();

    let cache = server_cache(&client_pk, &server_pk);
    let msg_arr: [u8; 32] = msg.as_slice().try_into().unwrap();
    let (_, server_pubnonce) = cache.nonce_gen_with_uniform_randomness(
        SessionSecretRand::assume_uniformly_random([4u8; 32]),
        server_kp.public_key(),
        &msg_arr,
        [5u8; 32],
    );
    let nonce_hex = hex::encode(server_pubnonce.serialize());
    let nonced = receive_server_nonce(session, &nonce_hex).unwrap();
    let signed = partial_sign_step(&ctx, nonced, &client_sk);
    assert!(signed.is_ok());
    // `nonced` (and the secret nonce inside it) has been moved; it no longer
    // exists to sign a second, different message with.
}

#[test]
fn mismatched_secret_key_is_rejected_before_signing() {
    // The session's nonce is bound to the client key; a different (valid)
    // secret key must be refused before any signing happens.
    let (_, client_pk, _) = test_key(1);
    let (other_sk, _, _) = test_key(3);
    let (_, server_pk, server_kp) = test_key(2);
    let msg = vec![5u8; 32];

    let ctx = aggregate(&client_pk, &server_pk).unwrap();
    let session = start_session(&ctx, &client_pk, &msg).unwrap();

    let cache = server_cache(&client_pk, &server_pk);
    let msg_arr: [u8; 32] = msg.as_slice().try_into().unwrap();
    let (_, server_pubnonce) = cache.nonce_gen_with_uniform_randomness(
        SessionSecretRand::assume_uniformly_random([6u8; 32]),
        server_kp.public_key(),
        &msg_arr,
        [7u8; 32],
    );
    let nonced =
        receive_server_nonce(session, &hex::encode(server_pubnonce.serialize())).unwrap();
    let res = partial_sign_step(&ctx, nonced, &other_sk);
    assert!(matches!(res, Err(CError::Crypto)));
}

#[test]
fn tap_tweak_is_the_tagged_hash() {
    // The BIP341 tweak is the tagged hash sha256(sha256("TapTweak") ||
    // sha256("TapTweak") || key), as the library's specification states.
    let (_, pk1, _) = test_key(1);
    let (_, pk2, _) = test_key(2);
    let ctx = aggregate(&pk1, &pk2).unwrap();
    let tag = bitcoin::hashes::sha256::Hash::hash(b"TapTweak").to_byte_array();
    let mut buf: Vec<u8> = Vec::new();
    buf.extend_from_slice(&tag);
    buf.extend_from_slice(&tag);
    buf.extend_from_slice(&ctx.agg_pk);
    let manual = bitcoin::hashes::sha256::Hash::hash(&buf).to_byte_array();
    let internal = bitcoin::secp256k1::XOnlyPublicKey::from_slice(&ctx.agg_pk).unwrap();
    let tagged = bitcoin::taproot::TapTweakHash::from_key_and_tweak(internal, None);
    assert_eq!(manual.to_vec(), tagged.to_byte_array().to_vec());
}
