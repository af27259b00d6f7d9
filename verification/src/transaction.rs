//! The timelocked backup transaction: one taproot input, one taproot output,
//! an absolute locktime, and the BIP341 key-spend sighash exposed for the
//! signing protocol; then witness installation and final verification against
//! the known prevout.
use vstd::prelude::*;

use crate::crypto;
use crate::hexutil::{ascii_chars, clone_bytes, hex_encode_string, spec_hex_encode};
use crate::CError;

verus! {

/// Wire payload asking the server for its public nonce.
pub struct PublicNonceRequestPayload {
    pub statechain_id: String,
}

/// Wire payload of the server's public nonce reply.
pub struct ServerPublicNonceResponsePayload {
    pub server_pubnonce: String,
}

/// Wire payload submitting the client's partial-signature material.
pub struct PartialSignatureRequestPayload {
    pub statechain_id: String,
    pub keyaggcoef: String,
    pub negate_seckey: u8,
    pub session: String,
}

/// Wire payload of the server's partial-signature reply.
pub struct PartialSignatureResponsePayload {
    pub partial_sig: String,
}

/// Builds the public-nonce request for a statechain session.
pub fn build_public_nonce_payload(statechain_id: &str) -> (r: PublicNonceRequestPayload)
    ensures
        r.statechain_id@ == statechain_id@,
{
    PublicNonceRequestPayload { statechain_id: statechain_id.to_owned() }
}

/// Builds the partial-signature request: the key-aggregation coefficient and
/// the session bytes go out hex-encoded, the negation flag as 0 or 1.
pub fn build_partial_sig_payload(
    statechain_id: &str,
    keyaggcoef: &Vec<u8>,
    negate_seckey: bool,
    session: &Vec<u8>,
) -> (r: PartialSignatureRequestPayload)
    ensures
        r.statechain_id@ == statechain_id@,
        r.keyaggcoef@ == ascii_chars(spec_hex_encode(keyaggcoef@)),
        r.session@ == ascii_chars(spec_hex_encode(session@)),
        r.negate_seckey == (if negate_seckey {
            1u8
        } else {
            0u8
        }),
{
    PartialSignatureRequestPayload {
        statechain_id: statechain_id.to_owned(),
        keyaggcoef: hex_encode_string(keyaggcoef),
        negate_seckey: if negate_seckey {
            1
        } else {
            0
        },
        session: hex_encode_string(session),
    }
}

/// The pay-to-taproot script of a 32-byte output key:
/// `OP_PUSHNUM_1 OP_PUSHBYTES_32 <key>`.
pub open spec fn spec_p2tr_script(key: Seq<u8>) -> Seq<u8> {
    seq![0x51u8, 0x20u8] + key
}

/// Builds the pay-to-taproot script of an output key.
pub fn p2tr_script(key: &Vec<u8>) -> (r: Vec<u8>)
    ensures
        r@ == spec_p2tr_script(key@),
{
    let mut out: Vec<u8> = Vec::new();
    out.push(0x51);
    out.push(0x20);
    let mut i: usize = 0;
    while i < key.len()
        invariant
            i <= key@.len(),
            out@ == seq![0x51u8, 0x20u8] + key@.subrange(0, i as int),
        decreases key@.len() - i,
    {
        out.push(key[i]);
        i = i + 1;
    }
    proof {
        assert(out@ =~= spec_p2tr_script(key@));
    }
    out
}

/// The script of a pay-to-taproot output whose internal key is the given
/// x-only key: the key under its own BIP341 key-path tweak, in a standard
/// taproot script. `Err(CError::Crypto)` exactly when the bytes are not a
/// valid x-only key or the tweak degenerates.
pub fn p2tr_output_script(internal_key: &Vec<u8>) -> (r: Result<Vec<u8>, CError>)
    ensures
        r is Ok <==> (crypto::is_valid_xonly(internal_key@) && crypto::tweak_ok(internal_key@)),
        r matches Err(e) ==> e == CError::Crypto,
        r matches Ok(s) ==> s@ == spec_p2tr_script(
            crypto::xonly_tweak_add_of(internal_key@, crypto::tap_tweak_of(internal_key@)),
        ),
{
    match crypto::taproot_output_of(internal_key) {
        None => Err(CError::Crypto),
        Some(out) => Ok(p2tr_script(&out)),
    }
}

/// A buildable and signable backup transaction: the single input it spends,
/// the single output it pays, the prevout it commits to, the exposed sighash,
/// and the signing scaffolding that finalization strips.
pub struct SignableTransaction {
    pub lock_height: u32,
    pub input_txid: Vec<u8>,
    pub input_vout: u32,
    pub sequence: u32,
    pub output_value: u64,
    pub output_script: Vec<u8>,
    pub prev_value: u64,
    pub prev_script: Vec<u8>,
    pub sighash: Vec<u8>,
    pub sighash_type: Option<u8>,
    pub tap_internal_key: Option<Vec<u8>>,
    pub tap_key_sig: Option<Vec<u8>>,
    pub final_witness: Option<Vec<u8>>,
}

impl SignableTransaction {
    /// The sighash the single input commits to, over the fields alone.
    pub open spec fn spec_sighash(self) -> Seq<u8> {
        crypto::taproot_sighash_of(
            self.lock_height,
            self.input_txid@,
            self.input_vout,
            self.sequence,
            self.output_value,
            self.output_script@,
            self.prev_value,
            self.prev_script@,
        )
    }

    pub open spec fn wf(self) -> bool {
        &&& self.input_txid@.len() == 32
        &&& self.sighash@.len() == 32
        &&& self.sighash@ == self.spec_sighash()
        &&& self.lock_height < 500000000
        &&& self.sequence == 0xFFFFFFFFu32
    }
}

/// Constructs the unsigned backup transaction: exactly one input (sequence
/// disabling relative-locktime semantics, absolute locktime at the given
/// block height) and exactly one output, and computes the `SIGHASH_ALL`
/// key-spend sighash for that input. Deterministic in its inputs, and always
/// succeeds: the sighash of a single input at index zero against its one
/// prevout is total.
pub fn create(
    block_height: u32,
    funding_txid: &Vec<u8>,
    funding_vout: u32,
    funding_value: u64,
    funding_script: &Vec<u8>,
    internal_key: &Vec<u8>,
    output_value: u64,
    output_script: &Vec<u8>,
) -> (r: Result<SignableTransaction, CError>)
    requires
        funding_txid@.len() == 32,
        block_height < 500000000,
    ensures
        r is Ok,
        r matches Ok(t) ==> t.wf() && t.lock_height == block_height && t.input_txid@
            == funding_txid@ && t.input_vout == funding_vout && t.sequence == 0xFFFFFFFFu32
            && t.output_value == output_value && t.output_script@ == output_script@
            && t.prev_value == funding_value && t.prev_script@ == funding_script@
            && t.sighash_type == Some(1u8) && (t.tap_internal_key matches Some(k) && k@
            == internal_key@) && t.tap_key_sig is None && t.final_witness is None,
{
    let sequence: u32 = 0xFFFFFFFF;
    let sighash = match crypto::taproot_sighash(
        block_height,
        funding_txid,
        funding_vout,
        sequence,
        output_value,
        output_script,
        funding_value,
        funding_script,
    ) {
        None => {
            proof {
                assert(false);
            }
            return Err(CError::Crypto);
        },
        Some(h) => h,
    };
    Ok(
        SignableTransaction {
            lock_height: block_height,
            input_txid: clone_bytes(funding_txid),
            input_vout: funding_vout,
            sequence,
            output_value,
            output_script: clone_bytes(output_script),
            prev_value: funding_value,
            prev_script: clone_bytes(funding_script),
            sighash,
            sighash_type: Some(1),
            tap_internal_key: Some(clone_bytes(internal_key)),
            tap_key_sig: None,
            final_witness: None,
        },
    )
}

/// Transaction determinism: two builds from the same fields commit to the
/// same sighash.
pub proof fn lemma_build_deterministic(t1: SignableTransaction, t2: SignableTransaction)
    requires
        t1.wf(),
        t2.wf(),
        t1.lock_height == t2.lock_height,
        t1.input_txid@ == t2.input_txid@,
        t1.input_vout == t2.input_vout,
        t1.sequence == t2.sequence,
        t1.output_value == t2.output_value,
        t1.output_script@ == t2.output_script@,
        t1.prev_value == t2.prev_value,
        t1.prev_script@ == t2.prev_script@,
    ensures
        t1.sighash@ == t2.sighash@,
{
}

/// The witness element carrying a signature under a sighash flag: the 64
/// signature bytes, with the flag byte appended when it is not the default.
pub open spec fn spec_witness_elem(sig: Seq<u8>, flag: u8) -> Seq<u8> {
    if flag == 0 {
        sig
    } else {
        sig + seq![flag]
    }
}

/// Installs the final signature as the input's single-element witness and
/// strips the signing scaffolding (sighash annotation, key-origin metadata),
/// as a finalized input must carry none of it. The transaction fields
/// themselves stay untouched.
pub fn attach_signature(t: &mut SignableTransaction, sig: &Vec<u8>)
    requires
        old(t).wf(),
        sig@.len() == 64,
    ensures
        final(t).wf(),
        final(t).final_witness matches Some(w) && w@ == spec_witness_elem(
            sig@,
            match old(t).sighash_type {
                Some(f) => f,
                None => 0,
            },
        ),
        final(t).tap_key_sig matches Some(s) && s@ == sig@,
        final(t).sighash_type is None,
        final(t).tap_internal_key is None,
        final(t).lock_height == old(t).lock_height,
        final(t).input_txid@ == old(t).input_txid@,
        final(t).input_vout == old(t).input_vout,
        final(t).sequence == old(t).sequence,
        final(t).output_value == old(t).output_value,
        final(t).output_script@ == old(t).output_script@,
        final(t).prev_value == old(t).prev_value,
        final(t).prev_script@ == old(t).prev_script@,
        final(t).sighash@ == old(t).sighash@,
{
    let flag: u8 = match t.sighash_type {
        Some(f) => f,
        None => 0,
    };
    let mut witness = clone_bytes(sig);
    if flag != 0 {
        witness.push(flag);
    }
    proof {
        if flag != 0 {
            assert(witness@ =~= sig@ + seq![flag]);
        }
    }
    t.tap_key_sig = Some(clone_bytes(sig));
    t.final_witness = Some(witness);
    t.sighash_type = None;
    t.tap_internal_key = None;
}

/// Extracts the fully signed transaction and re-verifies it against the known
/// prevout before returning its consensus encoding: the prevout script must
/// be the pay-to-taproot script of the expected output key, and the witness
/// signature must verify against that key over the input's sighash. Any
/// failure is a fatal `CError::Verification`; nothing unverified is returned.
pub fn finalize_and_verify(t: &SignableTransaction, output_key: &Vec<u8>) -> (r: Result<
    Vec<u8>,
    CError,
>)
    requires
        t.wf(),
    ensures
        r matches Ok(b) ==> (t.final_witness matches Some(w) && w@.len() >= 64
            && crypto::schnorr_verifies(w@.subrange(0, 64), t.spec_sighash(), output_key@)
            && t.prev_script@ == spec_p2tr_script(output_key@) && b@
            == crypto::signed_tx_bytes_of(
            t.lock_height,
            t.input_txid@,
            t.input_vout,
            t.sequence,
            t.output_value,
            t.output_script@,
            w@,
        )),
        r matches Err(e) ==> e == CError::Verification,
        t.final_witness is None ==> r is Err,
        t.final_witness matches Some(w) && w@.len() < 64 ==> r is Err,
        t.final_witness matches Some(w) && w@.len() >= 64 && t.prev_script@ != spec_p2tr_script(
            output_key@,
        ) ==> r is Err,
        t.final_witness matches Some(w) && w@.len() >= 64 && !crypto::schnorr_verifies(
            w@.subrange(0, 64),
            t.spec_sighash(),
            output_key@,
        ) ==> r is Err,
        t.final_witness matches Some(w) && w@.len() >= 64 && t.prev_script@ == spec_p2tr_script(
            output_key@,
        ) && crypto::schnorr_verifies(w@.subrange(0, 64), t.spec_sighash(), output_key@) ==> r
            is Ok,
{
    let witness = match &t.final_witness {
        None => {
            return Err(CError::Verification);
        },
        Some(w) => w,
    };
    if witness.len() < 64 {
        return Err(CError::Verification);
    }
    let mut sig: Vec<u8> = Vec::new();
    let mut i: usize = 0;
    while i < 64
        invariant
            i <= 64 <= witness@.len(),
            sig@ == witness@.subrange(0, i as int),
        decreases 64 - i,
    {
        sig.push(witness[i]);
        i = i + 1;
    }
    let expected_script = p2tr_script(output_key);
    if !crate::hexutil::bytes_equal(&t.prev_script, &expected_script) {
        return Err(CError::Verification);
    }
    if !crypto::schnorr_verify(&sig, &t.sighash, output_key) {
        return Err(CError::Verification);
    }
    match crypto::serialize_signed_tx(
        t.lock_height,
        &t.input_txid,
        t.input_vout,
        t.sequence,
        t.output_value,
        &t.output_script,
        witness,
    ) {
        None => Err(CError::Verification),
        Some(bytes) => Ok(bytes),
    }
}

} // verus!
