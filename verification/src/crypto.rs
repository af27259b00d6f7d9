//! Boundary to the outside cryptographic crates.
//!
//! Everything here is either an opaque type declaration, a name for the result
//! of an outside computation, or a wrapper whose contract Verus takes on
//! trust. Each wrapper's doc comment names the outside function it relies on.
//! All values crossing this boundary are plain byte vectors; the opaque
//! session values (`KeyAggCache`, `SecretNonce`, ...) are carried through the
//! library unread.
use vstd::prelude::*;

use crate::Network;
use bitcoin::absolute::LockTime;
use bitcoin::bip32::{ChildNumber, Xpriv, Xpub};
use bitcoin::hashes::Hash as ByteHash;
use bitcoin::transaction::Version;
use bitcoin::{Amount, OutPoint, ScriptBuf, Sequence, Transaction, TxIn, TxOut, Txid, Witness};
use secp256k1::musig::{
    AggregatedNonce, KeyAggCache, PartialSignature, PublicNonce, SecretNonce, Session,
    SessionSecretRand,
};

verus! {

#[verifier::external_type_specification]
#[verifier::external_body]
pub struct ExKeyAggCache(KeyAggCache);

#[verifier::external_type_specification]
#[verifier::external_body]
pub struct ExSecretNonce(SecretNonce);

#[verifier::external_type_specification]
#[verifier::external_body]
pub struct ExPublicNonce(PublicNonce);

#[verifier::external_type_specification]
#[verifier::external_body]
pub struct ExAggregatedNonce(AggregatedNonce);

#[verifier::external_type_specification]
#[verifier::external_body]
pub struct ExSession(Session);

#[verifier::external_type_specification]
#[verifier::external_body]
pub struct ExPartialSignature(PartialSignature);

#[verifier::external_type_specification]
#[verifier::external_body]
pub struct ExTransaction(Transaction);

/// The BIP32 secret key derived from a seed along a raw path (hardened
/// children have the high bit set), as 32 bytes.
pub uninterp spec fn derived_secret_key(seed: Seq<u8>, path: Seq<u32>, mainnet: bool) -> Seq<u8>;

/// The compressed public key matching `derived_secret_key`, as 33 bytes.
pub uninterp spec fn derived_public_key(seed: Seq<u8>, path: Seq<u32>, mainnet: bool) -> Seq<u8>;

/// The fingerprint of the master key of a seed, as 4 bytes.
pub uninterp spec fn master_fingerprint(seed: Seq<u8>, mainnet: bool) -> Seq<u8>;

/// The SHA-256 digest of a byte string, as 32 bytes.
pub uninterp spec fn sha256_of(b: Seq<u8>) -> Seq<u8>;

/// The deterministic (no auxiliary randomness) BIP340 signature of a message
/// under a secret key, as 64 bytes.
pub uninterp spec fn schnorr_sign_det(sk: Seq<u8>, msg: Seq<u8>) -> Seq<u8>;

/// Whether 64 signature bytes verify under BIP340 against a message and a
/// 32-byte x-only public key; false on malformed inputs.
pub uninterp spec fn schnorr_verifies(sig: Seq<u8>, msg: Seq<u8>, pk: Seq<u8>) -> bool;

/// The x-only MuSig2 aggregate key of two compressed public keys, in the
/// argument order, as 32 bytes.
pub uninterp spec fn agg_pk_of(a: Seq<u8>, b: Seq<u8>) -> Seq<u8>;

/// The ASCII bytes of the BIP341 tweak tag, `TapTweak`.
pub open spec fn tap_tweak_tag() -> Seq<u8> {
    seq![84u8, 97u8, 112u8, 84u8, 119u8, 101u8, 97u8, 107u8]
}

/// The BIP341 taproot tweak of a 32-byte x-only key with an empty script
/// merkle root: the tagged hash of the key alone,
/// `sha256(sha256("TapTweak") || sha256("TapTweak") || key)`.
pub open spec fn tap_tweak_of(k: Seq<u8>) -> Seq<u8> {
    sha256_of(sha256_of(tap_tweak_tag()) + sha256_of(tap_tweak_tag()) + k)
}

/// Whether 32 bytes are a valid secret key (32 bytes, nonzero and below the
/// curve order), as `secp256k1::SecretKey::from_secret_bytes` decides.
pub uninterp spec fn is_valid_seckey(sk: Seq<u8>) -> bool;

/// The compressed public key of a valid secret key, as 33 bytes.
pub uninterp spec fn pubkey_of_secret(sk: Seq<u8>) -> Seq<u8>;

/// Whether bytes are a valid serialized public key, as
/// `secp256k1::PublicKey::from_slice` decides.
pub uninterp spec fn is_valid_pubkey(b: Seq<u8>) -> bool;

/// Whether bytes are a valid 32-byte x-only public key, as
/// `secp256k1::XOnlyPublicKey::from_slice` decides.
pub uninterp spec fn is_valid_xonly(b: Seq<u8>) -> bool;

/// Whether the BIP341 tweak of an x-only key is a valid scalar whose
/// tweak-add yields a point; false only with negligible probability.
pub uninterp spec fn tweak_ok(k: Seq<u8>) -> bool;

/// Whether BIP32 derivation from a seed along a raw path is accepted: the
/// master key is derivable from the seed and the path depth fits. A
/// degenerate hardened-child scalar is of the same negligible class as
/// `tweak_ok` names, but aborts upstream instead of erring, so this name does
/// not cover it.
pub uninterp spec fn bip32_ok(seed: Seq<u8>, path: Seq<u32>, mainnet: bool) -> bool;

/// Whether bytes are a well-formed 66-byte serialized MuSig2 public nonce,
/// as `PublicNonce::from_byte_array` decides.
pub uninterp spec fn is_valid_pub_nonce(b: Seq<u8>) -> bool;

/// Whether bytes are a well-formed 32-byte serialized MuSig2 partial
/// signature, as `PartialSignature::from_byte_array` decides.
pub uninterp spec fn is_valid_partial_sig(b: Seq<u8>) -> bool;

/// The x-only key of `lift(k) + t*G`: an x-only key tweaked by a scalar,
/// as 32 bytes.
pub uninterp spec fn xonly_tweak_add_of(k: Seq<u8>, t: Seq<u8>) -> Seq<u8>;

/// The pay-to-taproot address string of a 32-byte internal key on the network
/// family `hrp` (0 mainnet, 1 testnet/signet, 2 regtest).
pub uninterp spec fn p2tr_address_of(internal: Seq<u8>, hrp: u8) -> Seq<char>;

/// The BIP341 `SIGHASH_ALL` key-spend sighash of the one-input, one-output
/// transaction with the given fields, committed to the given prevout, as 32
/// bytes. The transaction the name speaks of is of version 2 with an empty
/// input script.
pub uninterp spec fn taproot_sighash_of(
    lock_height: u32,
    txid: Seq<u8>,
    vout: u32,
    sequence: u32,
    out_value: u64,
    out_script: Seq<u8>,
    prev_value: u64,
    prev_script: Seq<u8>,
) -> Seq<u8>;

/// The consensus encoding of the one-input, one-output segwit transaction
/// with the given fields and a single witness element; the transaction is of
/// version 2 with an empty input script.
pub uninterp spec fn signed_tx_bytes_of(
    lock_height: u32,
    txid: Seq<u8>,
    vout: u32,
    sequence: u32,
    out_value: u64,
    out_script: Seq<u8>,
    witness_elem: Seq<u8>,
) -> Seq<u8>;

/// Relies on `rand::RngCore::fill_bytes` on `rand::thread_rng`: fills 32
/// bytes; nothing is promised of their values.
#[verifier::external_body]
pub(crate) fn rand_bytes32() -> (r: Vec<u8>)
    ensures
        r@.len() == 32,
{
    let mut buf = [0u8; 32];
    rand::RngCore::fill_bytes(&mut rand::thread_rng(), &mut buf);
    buf.to_vec()
}

/// Relies on `bitcoin::bip32::Xpriv::{new_master, derive_priv}` and
/// `bitcoin::bip32::Xpub::from_priv`: BIP32 derivation is a fixed function of
/// seed, path and network kind, and `Xpub::from_priv` computes exactly the
/// public key of the derived secret key. Returns the derived secret key, its
/// compressed public key and the master fingerprint. A degenerate
/// hardened-child scalar aborts upstream; it is out of reach in the same way
/// as a degenerate tweak.
#[verifier::external_body]
pub(crate) fn bip32_derive(seed: &Vec<u8>, path: &Vec<u32>, mainnet: bool) -> (r: Option<
    (Vec<u8>, Vec<u8>, Vec<u8>),
>)
    ensures
        r is Some <==> bip32_ok(seed@, path@, mainnet),
        r matches Some(t) ==> t.0@ == derived_secret_key(seed@, path@, mainnet) && t.0@.len()
            == 32,
        r matches Some(t) ==> t.1@ == derived_public_key(seed@, path@, mainnet) && t.1@.len()
            == 33,
        r matches Some(t) ==> t.1@ == pubkey_of_secret(t.0@) && is_valid_seckey(t.0@),
        r matches Some(t) ==> t.2@ == master_fingerprint(seed@, mainnet) && t.2@.len() == 4,
{
    let kind = if mainnet { bitcoin::NetworkKind::Main } else { bitcoin::NetworkKind::Test };
    let secp = bitcoin::secp256k1::Secp256k1::new();
    let root = Xpriv::new_master(kind, seed.as_slice()).ok()?;
    let fp = root.fingerprint(&secp).to_bytes().to_vec();
    let nums: Vec<ChildNumber> = path.iter().map(|n| ChildNumber::from(*n)).collect();
    let child = root.derive_priv(&secp, &nums).ok()?;
    let sk = child.private_key.secret_bytes().to_vec();
    let pk = Xpub::from_priv(&secp, &child).public_key.serialize().to_vec();
    Some((sk, pk, fp))
}

/// Relies on `bitcoin::hashes::sha256::Hash::hash`.
#[verifier::external_body]
pub(crate) fn sha256_bytes(b: &Vec<u8>) -> (r: Vec<u8>)
    ensures
        r@ == sha256_of(b@),
        r@.len() == 32,
{
    bitcoin::hashes::sha256::Hash::hash(b.as_slice()).to_byte_array().to_vec()
}

/// Relies on `secp256k1::Keypair::from_seckey_slice` and
/// `Keypair::sign_schnorr_no_aux_rand`: BIP340 signing without auxiliary
/// randomness is a fixed function of key and message, and a signature it
/// produces verifies under the x-only form of the key (the tail of the
/// compressed encoding). `None` exactly when the 32 bytes are not a valid
/// secret key.
#[verifier::external_body]
pub(crate) fn schnorr_sign(sk: &Vec<u8>, msg: &Vec<u8>) -> (r: Option<Vec<u8>>)
    ensures
        r is Some <==> is_valid_seckey(sk@),
        r matches Some(s) ==> s@ == schnorr_sign_det(sk@, msg@) && s@.len() == 64,
        r matches Some(s) ==> schnorr_verifies(s@, msg@, pubkey_of_secret(sk@).subrange(1, 33)),
{
    let kp = secp256k1::Keypair::from_seckey_slice(sk.as_slice()).ok()?;
    Some(kp.sign_schnorr_no_aux_rand(msg.as_slice()).serialize().to_vec())
}

/// Relies on `secp256k1::SecretKey::from_secret_bytes` and
/// `secp256k1::PublicKey::from_secret_key`: the public key is a fixed
/// function of the secret key; `None` exactly when the bytes are not a valid
/// secret key.
#[verifier::external_body]
pub(crate) fn pubkey_from_seckey(sk: &Vec<u8>) -> (r: Option<Vec<u8>>)
    ensures
        r is Some <==> is_valid_seckey(sk@),
        r matches Some(p) ==> p@ == pubkey_of_secret(sk@) && p@.len() == 33,
{
    let arr: [u8; 32] = sk.as_slice().try_into().ok()?;
    let secret = secp256k1::SecretKey::from_secret_bytes(arr).ok()?;
    Some(secp256k1::PublicKey::from_secret_key(&secret).serialize().to_vec())
}

/// Relies on `secp256k1::schnorr::Signature::verify`: BIP340 verification is
/// a fixed function of signature, message and key bytes; malformed inputs
/// never verify.
#[verifier::external_body]
pub(crate) fn schnorr_verify(sig: &Vec<u8>, msg: &Vec<u8>, pk: &Vec<u8>) -> (r: bool)
    ensures
        r == schnorr_verifies(sig@, msg@, pk@),
{
    let s = match secp256k1::schnorr::Signature::from_slice(sig.as_slice()) {
        Ok(s) => s,
        Err(_) => return false,
    };
    let k = match secp256k1::XOnlyPublicKey::from_slice(pk.as_slice()) {
        Ok(k) => k,
        Err(_) => return false,
    };
    s.verify(msg.as_slice(), &k).is_ok()
}

/// Relies on `secp256k1::musig::KeyAggCache::{new, agg_pk,
/// pubkey_xonly_tweak_add}` and `bitcoin::taproot::TapTweakHash::
/// from_key_and_tweak`: aggregates the two keys in the given order, then
/// applies the BIP341 key-path tweak with an empty merkle root. Returns the
/// tweaked cache, the untweaked x-only aggregate key and the tweaked x-only
/// output key.
#[verifier::external_body]
pub(crate) fn musig_aggregate_tweaked(a: &Vec<u8>, b: &Vec<u8>) -> (r: Option<
    (KeyAggCache, Vec<u8>, Vec<u8>),
>)
    ensures
        r is Some <==> (is_valid_pubkey(a@) && is_valid_pubkey(b@) && tweak_ok(agg_pk_of(a@, b@))),
        r matches Some(t) ==> t.1@ == agg_pk_of(a@, b@) && t.1@.len() == 32 && is_valid_xonly(
            t.1@,
        ),
        r matches Some(t) ==> t.2@ == xonly_tweak_add_of(
            agg_pk_of(a@, b@),
            tap_tweak_of(agg_pk_of(a@, b@)),
        ) && t.2@.len() == 32,
{
    let pa = secp256k1::PublicKey::from_slice(a.as_slice()).ok()?;
    let pb = secp256k1::PublicKey::from_slice(b.as_slice()).ok()?;
    let mut cache = KeyAggCache::new(&[&pa, &pb]);
    let agg_pk = cache.agg_pk().serialize();
    let internal = bitcoin::secp256k1::XOnlyPublicKey::from_slice(&agg_pk).ok()?;
    let tweak = bitcoin::taproot::TapTweakHash::from_key_and_tweak(internal, None);
    let scalar = secp256k1::Scalar::from_be_bytes(tweak.to_byte_array()).ok()?;
    let out = cache.pubkey_xonly_tweak_add(&scalar).ok()?;
    let out_x = out.x_only_public_key().0.serialize().to_vec();
    Some((cache, agg_pk.to_vec(), out_x))
}

/// Relies on `bitcoin::Address::p2tr`: the address of a taproot output whose
/// internal key is the given x-only key, on the given network family. `None`
/// exactly when the bytes are not a valid x-only key; a degenerate tweak
/// (`!tweak_ok`) aborts upstream, so the key's tweak must be known good.
#[verifier::external_body]
pub(crate) fn p2tr_address(internal: &Vec<u8>, net: Network) -> (r: Option<String>)
    requires
        tweak_ok(internal@),
    ensures
        r is Some <==> is_valid_xonly(internal@),
        r matches Some(s) ==> s@ == p2tr_address_of(internal@, net.spec_hrp_code()),
{
    let key = bitcoin::secp256k1::XOnlyPublicKey::from_slice(internal.as_slice()).ok()?;
    let hrp = match net {
        Network::Bitcoin => bitcoin::KnownHrp::Mainnet,
        Network::Testnet => bitcoin::KnownHrp::Testnets,
        Network::Signet => bitcoin::KnownHrp::Testnets,
        Network::Regtest => bitcoin::KnownHrp::Regtest,
    };
    let secp = bitcoin::secp256k1::Secp256k1::new();
    let addr = bitcoin::Address::p2tr(&secp, key, None, hrp);
    Some(format!("{}", addr))
}

/// A secret nonce bound to the public key it was generated for. The fields
/// are private and only `musig_nonce_gen` constructs a value, so the pair can
/// never be recombined: whoever holds the nonce holds the one key upstream
/// will accept it with.
pub struct BoundNonce {
    secret_nonce: SecretNonce,
    pubkey: Vec<u8>,
}

impl BoundNonce {
    /// The public key this nonce was generated for.
    pub closed spec fn spec_pubkey(self) -> Seq<u8> {
        self.pubkey@
    }

    /// Reads the bound public key.
    pub fn pubkey(&self) -> (r: &Vec<u8>)
        ensures
            r@ == self.spec_pubkey(),
    {
        &self.pubkey
    }
}

/// Relies on `secp256k1::musig::KeyAggCache::nonce_gen_with_uniform_randomness`:
/// generates the MuSig2 nonce pair for this signing session. Returns the
/// secret nonce bound to the key it was generated for, and the public nonce,
/// the latter also serialized (66 bytes). The session randomness must not be
/// all zeros (the crate refuses it).
#[verifier::external_body]
pub(crate) fn musig_nonce_gen(
    cache: &KeyAggCache,
    session_rand: &Vec<u8>,
    pk: &Vec<u8>,
    msg: &Vec<u8>,
    extra_rand: &Vec<u8>,
) -> (r: Option<(BoundNonce, PublicNonce, Vec<u8>)>)
    requires
        session_rand@.len() == 32,
        msg@.len() == 32,
        extra_rand@.len() == 32,
        exists|i: int| 0 <= i < session_rand@.len() && session_rand@[i] != 0,
    ensures
        r matches Some(t) ==> t.0.spec_pubkey() == pk@ && t.2@.len() == 66,
{
    let sr: [u8; 32] = session_rand.as_slice().try_into().ok()?;
    let m: [u8; 32] = msg.as_slice().try_into().ok()?;
    let er: [u8; 32] = extra_rand.as_slice().try_into().ok()?;
    let key = secp256k1::PublicKey::from_slice(pk.as_slice()).ok()?;
    let (sec, public) = cache.nonce_gen_with_uniform_randomness(
        SessionSecretRand::assume_uniformly_random(sr),
        key,
        &m,
        er,
    );
    let ser = public.serialize().to_vec();
    Some((BoundNonce { secret_nonce: sec, pubkey: pk.clone() }, public, ser))
}

/// Relies on `secp256k1::musig::PublicNonce::from_byte_array`: parses a
/// 66-byte serialized public nonce; `None` exactly on a malformed encoding.
#[verifier::external_body]
pub(crate) fn pub_nonce_from_bytes(b: &Vec<u8>) -> (r: Option<PublicNonce>)
    ensures
        r is Some <==> is_valid_pub_nonce(b@),
{
    let arr: [u8; 66] = b.as_slice().try_into().ok()?;
    PublicNonce::from_byte_array(&arr).ok()
}

/// Relies on `secp256k1::musig::AggregatedNonce::new`: combines the two
/// public nonces, in the given order.
#[verifier::external_body]
pub(crate) fn agg_nonce_new(a: &PublicNonce, b: &PublicNonce) -> (r: AggregatedNonce) {
    AggregatedNonce::new(&[a, b])
}

/// Relies on `secp256k1::musig::Session::new`: starts the signing session for
/// this key-aggregation cache, aggregate nonce and 32-byte message. Always
/// succeeds for a 32-byte message.
#[verifier::external_body]
pub(crate) fn session_new(cache: &KeyAggCache, agg: &AggregatedNonce, msg: &Vec<u8>) -> (r: Option<
    Session,
>)
    requires
        msg@.len() == 32,
    ensures
        r is Some,
{
    let m: [u8; 32] = msg.as_slice().try_into().ok()?;
    Some(Session::new(cache, *agg, &m))
}

/// Relies on `secp256k1::musig::Session::partial_sign`: produces this
/// signer's partial signature. The upstream call aborts when the keypair is
/// not the one the secret nonce was generated for; the bound nonce carries
/// that key inseparably, and the secret key is required to match it, so the
/// call returns. The body checks the match once more and refuses rather than
/// sign. The nonce is taken by value and consumed; it can never sign twice.
/// Returns the partial signature and its 32-byte serialization.
#[verifier::external_body]
pub(crate) fn musig_partial_sign(
    session: &Session,
    nonce: BoundNonce,
    sk: &Vec<u8>,
    cache: &KeyAggCache,
) -> (r: Option<(PartialSignature, Vec<u8>)>)
    requires
        is_valid_seckey(sk@),
        pubkey_of_secret(sk@) == nonce.spec_pubkey(),
    ensures
        r is Some,
        r matches Some(t) ==> t.1@.len() == 32,
{
    let kp = secp256k1::Keypair::from_seckey_slice(sk.as_slice()).ok()?;
    if kp.public_key().serialize().as_slice() != nonce.pubkey.as_slice() {
        return None;
    }
    let psig = session.partial_sign(nonce.secret_nonce, &kp, cache);
    let ser = psig.serialize().to_vec();
    Some((psig, ser))
}

/// Relies on `secp256k1::musig::Session::partial_verify`: whether a partial
/// signature verifies against the given public nonce and public key in this
/// session; false on a malformed key.
#[verifier::external_body]
pub(crate) fn musig_partial_verify(
    session: &Session,
    cache: &KeyAggCache,
    psig: &PartialSignature,
    nonce: &PublicNonce,
    pk: &Vec<u8>,
) -> (r: bool) {
    let key = match secp256k1::PublicKey::from_slice(pk.as_slice()) {
        Ok(k) => k,
        Err(_) => return false,
    };
    session.partial_verify(cache, psig, nonce, key)
}

/// Relies on `secp256k1::musig::PartialSignature::from_byte_array`: parses a
/// 32-byte serialized partial signature; `None` exactly on a malformed
/// encoding.
#[verifier::external_body]
pub(crate) fn partial_sig_from_bytes(b: &Vec<u8>) -> (r: Option<PartialSignature>)
    ensures
        r is Some <==> is_valid_partial_sig(b@),
{
    let arr: [u8; 32] = b.as_slice().try_into().ok()?;
    PartialSignature::from_byte_array(&arr).ok()
}

/// Relies on `secp256k1::musig::Session::partial_sig_agg`: combines the two
/// partial signatures, in the given order, into 64 candidate signature bytes.
/// Nothing is promised of their validity; callers verify them.
#[verifier::external_body]
pub(crate) fn musig_partial_sig_agg(
    session: &Session,
    first: &PartialSignature,
    second: &PartialSignature,
) -> (r: Vec<u8>)
    ensures
        r@.len() == 64,
{
    session.partial_sig_agg(&[first, second]).assume_valid().serialize().to_vec()
}

/// Relies on `secp256k1::XOnlyPublicKey::add_tweak` and
/// `bitcoin::taproot::TapTweakHash::from_key_and_tweak`: the key-path output
/// key of a single internal key is that key tweaked by its own BIP341
/// tag-hash. `None` exactly when the bytes are not a valid x-only key or the
/// tweak degenerates.
#[verifier::external_body]
pub(crate) fn taproot_output_of(internal: &Vec<u8>) -> (r: Option<Vec<u8>>)
    ensures
        r is Some <==> (is_valid_xonly(internal@) && tweak_ok(internal@)),
        r matches Some(t) ==> t@ == xonly_tweak_add_of(internal@, tap_tweak_of(internal@))
            && t@.len() == 32,
{
    let key = secp256k1::XOnlyPublicKey::from_slice(internal.as_slice()).ok()?;
    let btc_key = bitcoin::secp256k1::XOnlyPublicKey::from_slice(internal.as_slice()).ok()?;
    let tweak = bitcoin::taproot::TapTweakHash::from_key_and_tweak(btc_key, None);
    let scalar = secp256k1::Scalar::from_be_bytes(tweak.to_byte_array()).ok()?;
    let (out, _parity) = key.add_tweak(&scalar).ok()?;
    Some(out.serialize().to_vec())
}

/// Relies on `bitcoin::sighash::SighashCache::taproot_key_spend_signature_hash`:
/// the BIP341 `SIGHASH_ALL` key-spend sighash of the one-input, one-output
/// transaction with the given fields, a fixed function of them.
#[verifier::external_body]
pub(crate) fn taproot_sighash(
    lock_height: u32,
    txid: &Vec<u8>,
    vout: u32,
    sequence: u32,
    out_value: u64,
    out_script: &Vec<u8>,
    prev_value: u64,
    prev_script: &Vec<u8>,
) -> (r: Option<Vec<u8>>)
    requires
        txid@.len() == 32,
    ensures
        r is Some,
        r matches Some(h) ==> h@ == taproot_sighash_of(
            lock_height,
            txid@,
            vout,
            sequence,
            out_value,
            out_script@,
            prev_value,
            prev_script@,
        ) && h@.len() == 32,
{
    let tx = assemble_tx(lock_height, txid, vout, sequence, out_value, out_script, None)?;
    let prevout = TxOut {
        value: Amount::from_sat(prev_value),
        script_pubkey: ScriptBuf::from_bytes(prev_script.clone()),
    };
    let prevouts = [prevout];
    let mut cache = bitcoin::sighash::SighashCache::new(&tx);
    let all = bitcoin::sighash::Prevouts::All(&prevouts);
    let ty = bitcoin::sighash::TapSighashType::All;
    let hash = cache.taproot_key_spend_signature_hash(0, &all, ty).ok()?;
    Some(hash.to_byte_array().to_vec())
}

/// Relies on `bitcoin::consensus::encode::serialize`: the consensus encoding
/// of the one-input, one-output transaction with the given fields and the
/// given single witness element, a fixed function of them.
#[verifier::external_body]
pub(crate) fn serialize_signed_tx(
    lock_height: u32,
    txid: &Vec<u8>,
    vout: u32,
    sequence: u32,
    out_value: u64,
    out_script: &Vec<u8>,
    witness_elem: &Vec<u8>,
) -> (r: Option<Vec<u8>>)
    requires
        txid@.len() == 32,
    ensures
        r is Some,
        r matches Some(b) ==> b@ == signed_tx_bytes_of(
            lock_height,
            txid@,
            vout,
            sequence,
            out_value,
            out_script@,
            witness_elem@,
        ),
{
    let tx = assemble_tx(lock_height, txid, vout, sequence, out_value, out_script, Some(witness_elem))?;
    Some(bitcoin::consensus::encode::serialize(&tx))
}

/// Shared conversion of plain fields into a `bitcoin::Transaction` for the
/// two wrappers above, which alone call it; it promises nothing.
#[verifier::external_body]
fn assemble_tx(
    lock_height: u32,
    txid: &Vec<u8>,
    vout: u32,
    sequence: u32,
    out_value: u64,
    out_script: &Vec<u8>,
    witness_elem: Option<&Vec<u8>>,
) -> Option<Transaction> {
    let id: [u8; 32] = txid.as_slice().try_into().ok()?;
    let mut witness = Witness::new();
    if let Some(w) = witness_elem {
        witness.push(w.as_slice());
    }
    let previous_output = OutPoint { txid: Txid::from_byte_array(id), vout };
    let script_sig = ScriptBuf::new();
    let sequence = Sequence(sequence);
    let input = vec![TxIn { previous_output, script_sig, sequence, witness }];
    let value = Amount::from_sat(out_value);
    let script_pubkey = ScriptBuf::from_bytes(out_script.clone());
    let output = vec![TxOut { value, script_pubkey }];
    let version = Version(2);
    let lock_time = LockTime::from_consensus(lock_height);
    Some(Transaction { version, lock_time, input, output })
}

} // verus!
