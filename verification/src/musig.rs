//! MuSig2 key aggregation with the Taproot key-path tweak, and the two-round
//! nonce / partial-signature protocol.
//!
//! Aggregation sorts the two public keys lexicographically on their
//! serialization, so both parties compute the same aggregate key whatever
//! order the call site passes them in. Every partial signature is verified
//! before it is trusted, and the final signature is verified against the
//! tweaked output key before it is returned. A secret nonce is moved into the
//! one partial-sign call and consumed there: signing twice with one nonce is
//! ruled out by ownership.
use vstd::prelude::*;
use vstd::string::*;

use crate::crypto;
use crate::hexutil::{hex_decode, strip_0x, spec_is_hex, spec_hex_decode, spec_strip_0x};
use crate::CError;
use crate::Network;
use crate::crypto::BoundNonce;
use secp256k1::musig::{KeyAggCache, PartialSignature, PublicNonce, Session};

verus! {

/// Lexicographic order on byte strings; a prefix comes first.
pub open spec fn lex_le(a: Seq<u8>, b: Seq<u8>) -> bool
    decreases a.len(),
{
    if a.len() == 0 {
        true
    } else if b.len() == 0 {
        false
    } else if a[0] < b[0] {
        true
    } else if a[0] > b[0] {
        false
    } else {
        lex_le(a.drop_first(), b.drop_first())
    }
}

/// Any two byte strings compare in at least one direction.
pub proof fn lemma_lex_total(a: Seq<u8>, b: Seq<u8>)
    ensures
        lex_le(a, b) || lex_le(b, a),
    decreases a.len(),
{
    if a.len() > 0 && b.len() > 0 && a[0] == b[0] {
        lemma_lex_total(a.drop_first(), b.drop_first());
    }
}

/// Byte strings that compare both ways are equal.
pub proof fn lemma_lex_antisymmetric(a: Seq<u8>, b: Seq<u8>)
    requires
        lex_le(a, b),
        lex_le(b, a),
    ensures
        a == b,
    decreases a.len(),
{
    if a.len() > 0 && b.len() > 0 && a[0] == b[0] {
        lemma_lex_antisymmetric(a.drop_first(), b.drop_first());
        assert(a =~= seq![a[0]] + a.drop_first());
        assert(b =~= seq![b[0]] + b.drop_first());
    }
}

/// The first key under the canonical (lexicographic) ordering.
pub open spec fn canon_first(a: Seq<u8>, b: Seq<u8>) -> Seq<u8> {
    if lex_le(a, b) {
        a
    } else {
        b
    }
}

/// The second key under the canonical ordering.
pub open spec fn canon_second(a: Seq<u8>, b: Seq<u8>) -> Seq<u8> {
    if lex_le(a, b) {
        b
    } else {
        a
    }
}

/// The x-only aggregate key of two public keys, after canonical ordering.
pub open spec fn spec_aggregate_key(a: Seq<u8>, b: Seq<u8>) -> Seq<u8> {
    crypto::agg_pk_of(canon_first(a, b), canon_second(a, b))
}

/// The tweaked taproot output key of two public keys: the aggregate key
/// tweaked by its own BIP341 tag-hash (empty script merkle root).
pub open spec fn spec_output_key(a: Seq<u8>, b: Seq<u8>) -> Seq<u8> {
    crypto::xonly_tweak_add_of(
        spec_aggregate_key(a, b),
        crypto::tap_tweak_of(spec_aggregate_key(a, b)),
    )
}

/// Aggregation is order-independent: both parties compute the same aggregate
/// and output keys whichever way they pass the two shares.
pub proof fn lemma_aggregate_order_independent(a: Seq<u8>, b: Seq<u8>)
    ensures
        canon_first(a, b) == canon_first(b, a),
        canon_second(a, b) == canon_second(b, a),
        spec_aggregate_key(a, b) == spec_aggregate_key(b, a),
        spec_output_key(a, b) == spec_output_key(b, a),
{
    lemma_lex_total(a, b);
    if lex_le(a, b) && lex_le(b, a) {
        lemma_lex_antisymmetric(a, b);
    }
}

/// Compares two byte vectors lexicographically.
pub fn lex_le_bytes(a: &Vec<u8>, b: &Vec<u8>) -> (r: bool)
    ensures
        r == lex_le(a@, b@),
{
    let mut i: usize = 0;
    proof {
        assert(a@.skip(0) =~= a@);
        assert(b@.skip(0) =~= b@);
    }
    loop
        invariant
            i <= a@.len(),
            i <= b@.len(),
            lex_le(a@, b@) == lex_le(a@.skip(i as int), b@.skip(i as int)),
            lex_le(b@, a@) == lex_le(b@.skip(i as int), a@.skip(i as int)),
        ensures
            i <= a@.len(),
            i <= b@.len(),
            lex_le(a@, b@) == lex_le(a@.skip(i as int), b@.skip(i as int)),
            (i == a@.len() || i == b@.len() || a@[i as int] != b@[i as int]),
        decreases a@.len() - i,
    {
        if i == a.len() || i == b.len() {
            break ;
        }
        if a[i] != b[i] {
            break ;
        }
        proof {
            assert(a@.skip(i as int).drop_first() =~= a@.skip(i + 1));
            assert(b@.skip(i as int).drop_first() =~= b@.skip(i + 1));
        }
        i = i + 1;
    }
    proof {
        assert(a@.skip(a@.len() as int) =~= Seq::<u8>::empty());
        assert(b@.skip(b@.len() as int) =~= Seq::<u8>::empty());
    }
    if i == a.len() {
        proof {
            assert(lex_le(a@.skip(i as int), b@.skip(i as int)));
        }
        true
    } else if i == b.len() {
        proof {
            assert(!lex_le(a@.skip(i as int), b@.skip(i as int)));
        }
        false
    } else {
        a[i] < b[i]
    }
}

/// The aggregation context for one deposit: the two key shares in canonical
/// order, the aggregate key, the tweaked output key, and the opaque
/// key-aggregation cache the signing session runs on.
pub struct MusigContext {
    pub cache: KeyAggCache,
    pub key_a: Vec<u8>,
    pub key_b: Vec<u8>,
    pub agg_pk: Vec<u8>,
    pub output_key: Vec<u8>,
}

impl MusigContext {
    /// What the constructor establishes and every method preserves.
    pub open spec fn wf(self) -> bool {
        &&& lex_le(self.key_a@, self.key_b@)
        &&& self.agg_pk@ == crypto::agg_pk_of(self.key_a@, self.key_b@)
        &&& self.output_key@ == crypto::xonly_tweak_add_of(
            self.agg_pk@,
            crypto::tap_tweak_of(self.agg_pk@),
        )
        &&& self.agg_pk@.len() == 32
        &&& self.output_key@.len() == 32
        &&& crypto::is_valid_xonly(self.agg_pk@)
        &&& crypto::tweak_ok(self.agg_pk@)
    }
}

/// Aggregates exactly two public key shares into the MuSig aggregate key and
/// applies the taproot tweak. Deterministic and order-independent: the shares
/// are put in canonical order first. Fails with `CError::Crypto` when the
/// bytes do not form keys.
pub fn aggregate(pubkey_a: &Vec<u8>, pubkey_b: &Vec<u8>) -> (r: Result<MusigContext, CError>)
    ensures
        r is Ok <==> crypto::is_valid_pubkey(pubkey_a@) && crypto::is_valid_pubkey(pubkey_b@)
            && crypto::tweak_ok(spec_aggregate_key(pubkey_a@, pubkey_b@)),
        r matches Err(e) ==> e == CError::Crypto,
        r matches Ok(c) ==> c.wf() && c.key_a@ == canon_first(pubkey_a@, pubkey_b@) && c.key_b@
            == canon_second(pubkey_a@, pubkey_b@) && c.agg_pk@ == spec_aggregate_key(
            pubkey_a@,
            pubkey_b@,
        ) && c.output_key@ == spec_output_key(pubkey_a@, pubkey_b@),
{
    let a_first = lex_le_bytes(pubkey_a, pubkey_b);
    let (lo, hi) = if a_first {
        (crate::hexutil::clone_bytes(pubkey_a), crate::hexutil::clone_bytes(pubkey_b))
    } else {
        (crate::hexutil::clone_bytes(pubkey_b), crate::hexutil::clone_bytes(pubkey_a))
    };
    proof {
        lemma_lex_total(pubkey_a@, pubkey_b@);
    }
    match crypto::musig_aggregate_tweaked(&lo, &hi) {
        None => Err(CError::Crypto),
        Some((cache, agg_pk, output_key)) => Ok(
            MusigContext { cache, key_a: lo, key_b: hi, agg_pk, output_key },
        ),
    }
}

/// Two contexts independently aggregated from the same pair of shares carry
/// bit-identical aggregate and tweaked output keys: the tweak computed at
/// aggregation time is the one final verification runs against.
pub proof fn lemma_tweak_soundness(c1: MusigContext, c2: MusigContext, a: Seq<u8>, b: Seq<u8>)
    requires
        c1.wf(),
        c2.wf(),
        c1.key_a@ == canon_first(a, b),
        c1.key_b@ == canon_second(a, b),
        c2.key_a@ == canon_first(b, a),
        c2.key_b@ == canon_second(b, a),
    ensures
        c1.agg_pk@ == c2.agg_pk@,
        c1.output_key@ == c2.output_key@,
{
    lemma_aggregate_order_independent(a, b);
}

/// The tweaked output key and the address of the aggregate key: the address
/// is the pay-to-taproot address of the aggregate (internal) key, whose
/// output key is exactly `ctx.output_key`. Always succeeds: a well-formed
/// context carries a valid aggregate key.
pub fn taproot_output_key(ctx: &MusigContext, network: Network) -> (r: Result<
    (Vec<u8>, String),
    CError,
>)
    requires
        ctx.wf(),
    ensures
        r is Ok,
        r matches Ok(t) ==> t.0@ == ctx.output_key@ && t.1@ == crypto::p2tr_address_of(
            ctx.agg_pk@,
            network.spec_hrp_code(),
        ),
{
    match crypto::p2tr_address(&ctx.agg_pk, network) {
        None => {
            proof {
                assert(false);
            }
            Err(CError::Crypto)
        },
        Some(addr) => Ok((crate::hexutil::clone_bytes(&ctx.output_key), addr)),
    }
}

/// A signing session after nonce generation: the secret nonce is held here
/// and nowhere else, and leaves only by being consumed in `partial_sign_step`.
pub struct SignerSession {
    pub secret_nonce: BoundNonce,
    pub client_nonce_val: PublicNonce,
    pub session_rand: Vec<u8>,
    pub pub_nonce: Vec<u8>,
    pub msg: Vec<u8>,
}

impl SignerSession {
    pub open spec fn wf(self) -> bool {
        self.msg@.len() == 32 && self.pub_nonce@.len() == 66 && self.session_rand@.len() == 32
    }
}

/// Starts a signing session over a 32-byte message hash: draws the session
/// randomness and the nonce pair. Fails with `CError::Crypto` only if nonce
/// generation fails (degenerate randomness or malformed key).
pub fn start_session(ctx: &MusigContext, client_pubkey: &Vec<u8>, msg: &Vec<u8>) -> (r: Result<
    SignerSession,
    CError,
>)
    requires
        ctx.wf(),
        msg@.len() == 32,
    ensures
        r matches Err(e) ==> e == CError::Crypto,
        r matches Ok(s) ==> s.wf() && s.msg@ == msg@ && s.secret_nonce.spec_pubkey()
            == client_pubkey@,
{
    let session_rand = crypto::rand_bytes32();
    let mut any_nonzero = false;
    let mut i: usize = 0;
    while i < session_rand.len()
        invariant
            i <= session_rand@.len(),
            any_nonzero ==> exists|j: int|
                0 <= j < session_rand@.len() && session_rand@[j] != 0,
        decreases session_rand@.len() - i,
    {
        if session_rand[i] != 0 {
            any_nonzero = true;
        }
        i = i + 1;
    }
    if !any_nonzero {
        return Err(CError::Crypto);
    }
    let extra_rand = crypto::rand_bytes32();
    match crypto::musig_nonce_gen(&ctx.cache, &session_rand, client_pubkey, msg, &extra_rand) {
        None => Err(CError::Crypto),
        Some((secret_nonce, client_nonce_val, pub_nonce)) => Ok(
            SignerSession {
                secret_nonce,
                client_nonce_val,
                session_rand,
                pub_nonce,
                msg: crate::hexutil::clone_bytes(msg),
            },
        ),
    }
}

/// A session that has both public nonces.
pub struct NoncedSession {
    pub secret_nonce: BoundNonce,
    pub client_nonce_val: PublicNonce,
    pub server_nonce_val: PublicNonce,
    pub pub_nonce: Vec<u8>,
    pub server_nonce: Vec<u8>,
    pub msg: Vec<u8>,
}

impl NoncedSession {
    pub open spec fn wf(self) -> bool {
        self.msg@.len() == 32 && self.pub_nonce@.len() == 66
    }
}

/// Takes the peer's public nonce, as the hex string the server sent
/// (optionally `0x`-prefixed), and combines it with the session. A malformed
/// nonce is a `CError::Protocol`; the session is consumed either way.
pub fn receive_server_nonce(session: SignerSession, server_nonce_hex: &str) -> (r: Result<
    NoncedSession,
    CError,
>)
    requires
        session.wf(),
    ensures
        r matches Err(e) ==> e == CError::Protocol,
        r is Ok <==> spec_is_hex(spec_strip_0x(server_nonce_hex.spec_bytes()))
            && crypto::is_valid_pub_nonce(
            spec_hex_decode(spec_strip_0x(server_nonce_hex.spec_bytes())),
        ),
        r matches Ok(ns) ==> ns.wf() && ns.msg@ == session.msg@ && ns.pub_nonce@
            == session.pub_nonce@ && ns.secret_nonce.spec_pubkey()
            == session.secret_nonce.spec_pubkey() && ns.server_nonce@ == spec_hex_decode(
            spec_strip_0x(server_nonce_hex.spec_bytes()),
        ),
{
    let raw = server_nonce_hex.as_bytes_vec();
    let stripped = strip_0x(&raw);
    let decoded = match hex_decode(&stripped) {
        None => {
            return Err(CError::Protocol);
        },
        Some(d) => d,
    };
    match crypto::pub_nonce_from_bytes(&decoded) {
        None => Err(CError::Protocol),
        Some(server_nonce_val) => Ok(
            NoncedSession {
                secret_nonce: session.secret_nonce,
                client_nonce_val: session.client_nonce_val,
                server_nonce_val,
                pub_nonce: session.pub_nonce,
                server_nonce: decoded,
                msg: session.msg,
            },
        ),
    }
}

/// A session that has produced and self-verified the client's partial
/// signature; the secret nonce is gone.
pub struct SignedSession {
    pub session: Session,
    pub client_psig_val: PartialSignature,
    pub server_nonce_val: PublicNonce,
    pub partial_sig: Vec<u8>,
    pub msg: Vec<u8>,
}

impl SignedSession {
    pub open spec fn wf(self) -> bool {
        self.msg@.len() == 32 && self.partial_sig@.len() == 32
    }
}

/// Aggregates the nonces, signs the message with the client's key share, and
/// self-verifies the partial signature against the client's own nonce and key
/// before anything is transmitted. The secret key must correspond to the
/// public key the session's nonce was generated for; a mismatch or an invalid
/// key is refused before any signing, as a `CError::Crypto`. The secret nonce
/// is consumed by the one signing call whatever the outcome; a failed
/// self-check likewise aborts the attempt with `CError::Crypto`.
pub fn partial_sign_step(
    ctx: &MusigContext,
    session: NoncedSession,
    client_seckey: &Vec<u8>,
) -> (r: Result<SignedSession, CError>)
    requires
        ctx.wf(),
        session.wf(),
    ensures
        r matches Err(e) ==> e == CError::Crypto,
        !(crypto::is_valid_seckey(client_seckey@) && crypto::pubkey_of_secret(client_seckey@)
            == session.secret_nonce.spec_pubkey()) ==> r is Err,
        r matches Ok(ss) ==> ss.wf() && ss.msg@ == session.msg@,
{
    let client_pubkey = match crypto::pubkey_from_seckey(client_seckey) {
        None => {
            return Err(CError::Crypto);
        },
        Some(p) => p,
    };
    if !crate::hexutil::bytes_equal(&client_pubkey, session.secret_nonce.pubkey()) {
        return Err(CError::Crypto);
    }
    let agg_nonce = crypto::agg_nonce_new(&session.client_nonce_val, &session.server_nonce_val);
    let signing = match crypto::session_new(&ctx.cache, &agg_nonce, &session.msg) {
        None => {
            proof {
                assert(false);
            }
            return Err(CError::Crypto);
        },
        Some(s) => s,
    };
    let signed = crypto::musig_partial_sign(
        &signing,
        session.secret_nonce,
        client_seckey,
        &ctx.cache,
    );
    match signed {
        None => Err(CError::Crypto),
        Some((client_psig_val, partial_sig)) => {
            let ok = crypto::musig_partial_verify(
                &signing,
                &ctx.cache,
                &client_psig_val,
                &session.client_nonce_val,
                &client_pubkey,
            );
            if !ok {
                return Err(CError::Crypto);
            }
            Ok(
                SignedSession {
                    session: signing,
                    client_psig_val,
                    server_nonce_val: session.server_nonce_val,
                    partial_sig,
                    msg: session.msg,
                },
            )
        },
    }
}

/// The peer's partial signature, parsed and verified within a session.
pub struct VerifiedSession {
    pub server_psig_val: PartialSignature,
    pub server_partial_sig: Vec<u8>,
}

/// Takes the peer's partial signature, as the hex string the server sent
/// (optionally `0x`-prefixed), and verifies it against the peer's public
/// nonce and key share in this session. A malformed or non-verifying partial
/// signature is a `CError::Protocol`: the signing attempt aborts rather than
/// aggregate an unverified share.
pub fn receive_server_partial_sig(
    ctx: &MusigContext,
    session: &SignedSession,
    server_psig_hex: &str,
    server_pubkey: &Vec<u8>,
) -> (r: Result<VerifiedSession, CError>)
    requires
        ctx.wf(),
        session.wf(),
    ensures
        r matches Err(e) ==> e == CError::Protocol,
        !(spec_is_hex(spec_strip_0x(server_psig_hex.spec_bytes()))
            && crypto::is_valid_partial_sig(
            spec_hex_decode(spec_strip_0x(server_psig_hex.spec_bytes())),
        )) ==> r is Err,
        r matches Ok(vs) ==> vs.server_partial_sig@ == spec_hex_decode(
            spec_strip_0x(server_psig_hex.spec_bytes()),
        ),
{
    let raw = server_psig_hex.as_bytes_vec();
    let stripped = strip_0x(&raw);
    let decoded = match hex_decode(&stripped) {
        None => {
            return Err(CError::Protocol);
        },
        Some(d) => d,
    };
    let server_psig_val = match crypto::partial_sig_from_bytes(&decoded) {
        None => {
            return Err(CError::Protocol);
        },
        Some(p) => p,
    };
    let ok = crypto::musig_partial_verify(
        &session.session,
        &ctx.cache,
        &server_psig_val,
        &session.server_nonce_val,
        server_pubkey,
    );
    if !ok {
        return Err(CError::Protocol);
    }
    Ok(VerifiedSession { server_psig_val, server_partial_sig: decoded })
}

/// Combines the two verified partial signatures into one Schnorr signature
/// and verifies it against the tweaked output key and the session message
/// before returning it: an `Ok` signature always verifies. A combination that
/// does not verify is a `CError::Crypto`.
pub fn aggregate_signatures(
    ctx: &MusigContext,
    session: &SignedSession,
    verified: &VerifiedSession,
) -> (r: Result<Vec<u8>, CError>)
    requires
        ctx.wf(),
        session.wf(),
    ensures
        r matches Err(e) ==> e == CError::Crypto,
        r matches Ok(sig) ==> sig@.len() == 64 && crypto::schnorr_verifies(
            sig@,
            session.msg@,
            ctx.output_key@,
        ),
{
    let sig = crypto::musig_partial_sig_agg(
        &session.session,
        &session.client_psig_val,
        &verified.server_psig_val,
    );
    if !crypto::schnorr_verify(&sig, &session.msg, &ctx.output_key) {
        return Err(CError::Crypto);
    }
    Ok(sig)
}

} // verus!
