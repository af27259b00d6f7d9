//! The deposit workflow: derive the spending and authentication shares,
//! register the deposit with the co-signing server, aggregate the keys, and
//! fix the fee and locktime of the backup transaction. Network transport
//! stays with the caller; the functions here make every decision.
use vstd::prelude::*;
use vstd::string::*;

use crate::crypto;
use crate::hexutil::{
    ascii_chars, bytes_equal, clone_bytes, hex_decode, hex_encode_string, spec_hex_decode,
    spec_hex_encode, spec_is_hex,
};
use crate::key_derivation::{
    generate_new_key, get_next_address_index, insert_agg_key_data, spec_full_path,
    spec_next_index, spec_parse_path, spec_row_auth_updated, spec_row_of_key_data,
    update_auth_key_data, KeyData, KeyStore, SignerRow,
};
use crate::musig::{aggregate, canon_first, canon_second, spec_aggregate_key, taproot_output_key, MusigContext};
use crate::CError;
use crate::Network;

verus! {

/// Virtual size of the backup transaction: one taproot input, one taproot
/// output. Fixed, so the absolute fee is exact.
pub const TX_SIZE: u64 = 112;

/// How many blocks past the funding height the backup locktime sits.
pub const MATURITY_WINDOW: u32 = 12000;

/// Wire payload registering a deposit with the co-signing server.
pub struct DepositRequestPayload {
    pub amount: u64,
    pub auth_key: String,
    pub token_id: String,
    pub signed_token_id: String,
}

/// Signs a token identifier with the authentication key: a deterministic
/// BIP340 signature over the SHA-256 hash of the token's text. Fails with
/// `CError::Crypto` exactly when the bytes are not a valid secret key.
pub fn sign_token(auth_seckey: &Vec<u8>, token_id: &str) -> (r: Result<Vec<u8>, CError>)
    ensures
        r is Ok <==> crypto::is_valid_seckey(auth_seckey@),
        r matches Err(e) ==> e == CError::Crypto,
        r matches Ok(sig) ==> sig@ == crypto::schnorr_sign_det(
            auth_seckey@,
            crypto::sha256_of(token_id.spec_bytes()),
        ) && sig@.len() == 64,
        r matches Ok(sig) ==> crypto::schnorr_verifies(
            sig@,
            crypto::sha256_of(token_id.spec_bytes()),
            crypto::pubkey_of_secret(auth_seckey@).subrange(1, 33),
        ),
{
    let token_bytes = token_id.as_bytes_vec();
    let msg = crypto::sha256_bytes(&token_bytes);
    match crypto::schnorr_sign(auth_seckey, &msg) {
        None => Err(CError::Crypto),
        Some(sig) => Ok(sig),
    }
}

/// Builds the deposit-registration payload. The authentication key goes out
/// as the hex of its x-only form: a compressed key is one parity byte
/// followed by the 32 x bytes, so the x-only form is its tail.
pub fn build_deposit_payload(
    amount: u64,
    auth_pubkey: &Vec<u8>,
    token_id: &str,
    signed_token: &Vec<u8>,
) -> (r: DepositRequestPayload)
    requires
        auth_pubkey@.len() == 33,
    ensures
        r.amount == amount,
        r.token_id@ == token_id@,
        r.auth_key@ == ascii_chars(spec_hex_encode(auth_pubkey@.subrange(1, 33))),
        r.signed_token_id@ == ascii_chars(spec_hex_encode(signed_token@)),
{
    let mut xonly: Vec<u8> = Vec::new();
    let mut i: usize = 1;
    while i < auth_pubkey.len()
        invariant
            1 <= i <= auth_pubkey@.len(),
            auth_pubkey@.len() == 33,
            xonly@ == auth_pubkey@.subrange(1, i as int),
        decreases auth_pubkey@.len() - i,
    {
        xonly.push(auth_pubkey[i]);
        i = i + 1;
    }
    DepositRequestPayload {
        amount,
        auth_key: hex_encode_string(&xonly),
        token_id: token_id.to_owned(),
        signed_token_id: hex_encode_string(signed_token),
    }
}

/// Everything `init` decides: the two key shares and the registration
/// payload to submit.
pub struct DepositInit {
    pub agg_key_data: KeyData,
    pub auth_key_data: KeyData,
    pub payload: DepositRequestPayload,
}

/// The client-side half of deposit initialization: allocates the next address
/// index, derives the spending share on the aggregate-key path and the
/// authentication share on its own path, checks the share-pair invariant
/// (same fingerprint and indices, distinct paths), persists both, signs the
/// token with the authentication key, and builds the registration payload.
/// The caller submits the payload and hands the response back to
/// `parse_server_pubkey` and `update_statechain_id`.
pub fn init(store: &mut KeyStore, token_id: &str, amount: u64, network: Network) -> (r: Result<
    DepositInit,
    CError,
>)
    requires
        spec_next_index(old(store).rows@, 0) <= u32::MAX,
    ensures
        r matches Err(e) ==> e == CError::Crypto,
        final(store).seed is Some,
        old(store).seed matches Some(s0) ==> (final(store).seed matches Some(s1) && s1@ == s0@),
        r is Ok <==> ({
            let p86 = spec_parse_path("m/86h/0h/0h".spec_bytes());
            let p89 = spec_parse_path("m/89h/0h/0h".spec_bytes());
            let idx = spec_next_index(old(store).rows@, 0) as u32;
            &&& p86 matches Some(b86)
            &&& p89 matches Some(b89)
            &&& final(store).seed matches Some(s)
            &&& crypto::bip32_ok(s@, spec_full_path(b86, 0, idx), network.spec_is_mainnet())
            &&& crypto::bip32_ok(s@, spec_full_path(b89, 0, idx), network.spec_is_mainnet())
            &&& spec_full_path(b86, 0, idx) != spec_full_path(b89, 0, idx)
            &&& crypto::derived_secret_key(
                s@,
                spec_full_path(b86, 0, idx),
                network.spec_is_mainnet(),
            ) != crypto::derived_secret_key(
                s@,
                spec_full_path(b89, 0, idx),
                network.spec_is_mainnet(),
            )
            &&& crypto::derived_public_key(
                s@,
                spec_full_path(b86, 0, idx),
                network.spec_is_mainnet(),
            ) != crypto::derived_public_key(
                s@,
                spec_full_path(b89, 0, idx),
                network.spec_is_mainnet(),
            )
        }),
        r is Err ==> (final(store).rows@ == old(store).rows@ || (final(store).rows@.len()
            == old(store).rows@.len() + 1 && final(store).rows@.last().change_index == 0
            && final(store).rows@.last().address_index == spec_next_index(old(store).rows@, 0))),
        r is Err ==> forall|i: int|
            #![trigger final(store).rows@[i]]
            0 <= i < old(store).rows@.len() ==> final(store).rows@[i].change_index
                == old(store).rows@[i].change_index && final(store).rows@[i].address_index
                == old(store).rows@[i].address_index,
        r matches Ok(d) ==> ({
            &&& d.agg_key_data.token_id matches Some(t1) && t1@ == token_id@
            &&& d.auth_key_data.token_id matches Some(t2) && t2@ == token_id@
            &&& d.agg_key_data.fingerprint@ == d.auth_key_data.fingerprint@
            &&& d.agg_key_data.derivation_path@ != d.auth_key_data.derivation_path@
            &&& d.agg_key_data.secret_key@ != d.auth_key_data.secret_key@
            &&& d.agg_key_data.public_key@ != d.auth_key_data.public_key@
            &&& d.agg_key_data.public_key@ == crypto::pubkey_of_secret(
                d.agg_key_data.secret_key@,
            )
            &&& d.auth_key_data.public_key@ == crypto::pubkey_of_secret(
                d.auth_key_data.secret_key@,
            )
            &&& d.agg_key_data.change_index == d.auth_key_data.change_index
            &&& d.agg_key_data.address_index == d.auth_key_data.address_index
            &&& d.agg_key_data.address_index == spec_next_index(old(store).rows@, 0)
            &&& d.agg_key_data.public_key@.len() == 33
            &&& d.auth_key_data.public_key@.len() == 33
            &&& d.payload.amount == amount
            &&& d.payload.token_id@ == token_id@
            &&& d.payload.auth_key@ == ascii_chars(
                spec_hex_encode(d.auth_key_data.public_key@.subrange(1, 33)),
            )
            &&& d.payload.signed_token_id@ == ascii_chars(
                spec_hex_encode(
                    crypto::schnorr_sign_det(
                        d.auth_key_data.secret_key@,
                        crypto::sha256_of(token_id.spec_bytes()),
                    ),
                ),
            )
            &&& crypto::schnorr_verifies(
                crypto::schnorr_sign_det(
                    d.auth_key_data.secret_key@,
                    crypto::sha256_of(token_id.spec_bytes()),
                ),
                crypto::sha256_of(token_id.spec_bytes()),
                d.auth_key_data.public_key@.subrange(1, 33),
            )
        }),
        r matches Ok(d) ==> ({
            &&& final(store).rows@.len() == old(store).rows@.len() + 1
            &&& exists|mid: SignerRow|
                spec_row_of_key_data(mid, d.agg_key_data) && spec_row_auth_updated(
                    mid,
                    #[trigger] final(store).rows@.last(),
                    d.auth_key_data,
                )
            &&& forall|i: int|
                #![trigger final(store).rows@[i]]
                0 <= i < old(store).rows@.len() ==> final(store).rows@[i].change_index == old(
                    store,
                ).rows@[i].change_index && final(store).rows@[i].address_index == old(
                    store,
                ).rows@[i].address_index
            &&& final(store).rows@.last().change_index == 0
            &&& final(store).rows@.last().address_index == spec_next_index(old(store).rows@, 0)
        }),
{
    let change_index: u32 = 0;
    let address_index = get_next_address_index(store, change_index);
    let mut agg_key_data = match generate_new_key(
        store,
        "m/86h/0h/0h",
        change_index,
        address_index,
        network,
    ) {
        Err(e) => {
            return Err(e);
        },
        Ok(kd) => kd,
    };
    agg_key_data.token_id = Some(token_id.to_owned());
    insert_agg_key_data(store, &agg_key_data);
    let mut auth_key_data = match generate_new_key(
        store,
        "m/89h/0h/0h",
        change_index,
        address_index,
        network,
    ) {
        Err(e) => {
            return Err(e);
        },
        Ok(kd) => kd,
    };
    auth_key_data.token_id = Some(token_id.to_owned());
    // The share-pair invariant: one seed, one index pair, two distinct paths.
    // A violation is an internal fault, never user-recoverable.
    if !bytes_equal(&auth_key_data.fingerprint, &agg_key_data.fingerprint) {
        return Err(CError::Crypto);
    }
    if auth_key_data.change_index != agg_key_data.change_index {
        return Err(CError::Crypto);
    }
    if auth_key_data.address_index != agg_key_data.address_index {
        return Err(CError::Crypto);
    }
    if u32s_equal(&auth_key_data.derivation_path, &agg_key_data.derivation_path) {
        return Err(CError::Crypto);
    }
    if bytes_equal(&auth_key_data.secret_key, &agg_key_data.secret_key) {
        return Err(CError::Crypto);
    }
    if bytes_equal(&auth_key_data.public_key, &agg_key_data.public_key) {
        return Err(CError::Crypto);
    }
    update_auth_key_data(store, &auth_key_data, &agg_key_data.public_key);
    let signed = match sign_token(&auth_key_data.secret_key, token_id) {
        Err(e) => {
            return Err(e);
        },
        Ok(s) => s,
    };
    let payload = build_deposit_payload(amount, &auth_key_data.public_key, token_id, &signed);
    Ok(DepositInit { agg_key_data, auth_key_data, payload })
}

/// Index monotonicity across deposits: a store that came out of one
/// initialization (one new row claiming the issued index, older rows keeping
/// their chain and index) issues exactly the next index afterwards, so
/// sequential deposits claim 0, 1, 2, ... with no duplicate.
pub proof fn lemma_init_claims_next_index(before: Seq<SignerRow>, after: Seq<SignerRow>)
    requires
        after.len() == before.len() + 1,
        forall|i: int|
            0 <= i < before.len() ==> #[trigger] after[i].change_index == before[i].change_index
                && after[i].address_index == before[i].address_index,
        after.last().change_index == 0,
        after.last().address_index == spec_next_index(before, 0),
    ensures
        spec_next_index(after, 0) == spec_next_index(before, 0) + 1,
{
    assert forall|i: int| 0 <= i < before.len() implies #[trigger] after.drop_last()[i].change_index
        == before[i].change_index && after.drop_last()[i].address_index
        == before[i].address_index by {
        assert(after.drop_last()[i] == after[i]);
        assert(after[i].change_index == before[i].change_index);
        assert(after[i].address_index == before[i].address_index);
    }
    crate::key_derivation::lemma_next_index_congruent(after.drop_last(), before, 0);
    crate::key_derivation::lemma_next_index_nonneg(before, 0);
}

/// Whether two index vectors hold the same numbers.
pub fn u32s_equal(a: &Vec<u32>, b: &Vec<u32>) -> (r: bool)
    ensures
        r == (a@ == b@),
{
    if a.len() != b.len() {
        proof {
            assert(a@.len() != b@.len());
        }
        return false;
    }
    let mut i: usize = 0;
    while i < a.len()
        invariant
            i <= a@.len(),
            a@.len() == b@.len(),
            forall|j: int| 0 <= j < i ==> a@[j] == b@[j],
        decreases a@.len() - i,
    {
        if a[i] != b[i] {
            return false;
        }
        i = i + 1;
    }
    proof {
        assert(a@ =~= b@);
    }
    true
}

/// Validates the server's public key share from its deposit-init reply: hex,
/// decoding to a 33-byte compressed key. A malformed share is a
/// `CError::Protocol` and the deposit aborts.
pub fn parse_server_pubkey(server_pubkey_hex: &str) -> (r: Result<Vec<u8>, CError>)
    ensures
        r matches Err(e) ==> e == CError::Protocol,
        r is Ok <==> spec_is_hex(server_pubkey_hex.spec_bytes()) && spec_hex_decode(
            server_pubkey_hex.spec_bytes(),
        ).len() == 33,
        r matches Ok(v) ==> v@ == spec_hex_decode(server_pubkey_hex.spec_bytes()),
{
    let raw = server_pubkey_hex.as_bytes_vec();
    match hex_decode(&raw) {
        None => Err(CError::Protocol),
        Some(v) => {
            if v.len() != 33 {
                Err(CError::Protocol)
            } else {
                Ok(v)
            }
        },
    }
}

/// How a row looks after the server's statechain id is recorded on it.
pub open spec fn spec_row_statechain_updated(o: SignerRow, n: SignerRow, id: Seq<char>) -> bool {
    &&& (n.statechain_id matches Some(s) && s@ == id)
    &&& n.token_id == o.token_id
    &&& n.client_seckey_share == o.client_seckey_share
    &&& n.client_pubkey_share == o.client_pubkey_share
    &&& n.fingerprint == o.fingerprint
    &&& n.agg_key_derivation_path == o.agg_key_derivation_path
    &&& n.change_index == o.change_index
    &&& n.address_index == o.address_index
    &&& n.auth_derivation_path == o.auth_derivation_path
    &&& n.auth_seckey == o.auth_seckey
    &&& n.auth_pubkey == o.auth_pubkey
    &&& n.server_pubkey_share == o.server_pubkey_share
    &&& n.aggregated_pubkey == o.aggregated_pubkey
    &&& n.p2tr_agg_address == o.p2tr_agg_address
}

/// Records the statechain id the server assigned on every row whose client
/// public key share matches.
pub fn update_statechain_id(store: &mut KeyStore, statechain_id: String, client_pubkey: &Vec<u8>)
    ensures
        final(store).seed == old(store).seed,
        final(store).rows@.len() == old(store).rows@.len(),
        forall|i: int|
            0 <= i < old(store).rows@.len() ==> if old(
                store,
            ).rows@[i].client_pubkey_share@ == client_pubkey@ {
                spec_row_statechain_updated(
                    old(store).rows@[i],
                    #[trigger] final(store).rows@[i],
                    statechain_id@,
                )
            } else {
                final(store).rows@[i] == old(store).rows@[i]
            },
{
    let n = store.rows.len();
    let mut i: usize = 0;
    while i < n
        invariant
            n == store.rows@.len(),
            n == old(store).rows@.len(),
            i <= n,
            store.seed == old(store).seed,
            forall|j: int| i <= j < n ==> store.rows@[j] == old(store).rows@[j],
            forall|j: int|
                0 <= j < i ==> if old(store).rows@[j].client_pubkey_share@ == client_pubkey@ {
                    spec_row_statechain_updated(
                        old(store).rows@[j],
                        #[trigger] store.rows@[j],
                        statechain_id@,
                    )
                } else {
                    store.rows@[j] == old(store).rows@[j]
                },
        decreases n - i,
    {
        let matches_key = bytes_equal(&store.rows[i].client_pubkey_share, client_pubkey);
        if matches_key {
            let mut row = store.rows.remove(i);
            row.statechain_id = Some(statechain_id.clone());
            store.rows.insert(i, row);
        }
        i = i + 1;
    }
}

/// How a row looks after the aggregation results are recorded on it.
pub open spec fn spec_row_agg_updated(
    o: SignerRow,
    n: SignerRow,
    server_pubkey: Seq<u8>,
    agg_pk: Seq<u8>,
    address: Seq<char>,
) -> bool {
    &&& (n.server_pubkey_share matches Some(s) && s@ == server_pubkey)
    &&& (n.aggregated_pubkey matches Some(a) && a@ == agg_pk)
    &&& (n.p2tr_agg_address matches Some(p) && p@ == address)
    &&& n.token_id == o.token_id
    &&& n.client_seckey_share == o.client_seckey_share
    &&& n.client_pubkey_share == o.client_pubkey_share
    &&& n.fingerprint == o.fingerprint
    &&& n.agg_key_derivation_path == o.agg_key_derivation_path
    &&& n.change_index == o.change_index
    &&& n.address_index == o.address_index
    &&& n.auth_derivation_path == o.auth_derivation_path
    &&& n.auth_seckey == o.auth_seckey
    &&& n.auth_pubkey == o.auth_pubkey
    &&& n.statechain_id == o.statechain_id
}

/// Aggregates the client and server key shares, derives the taproot address,
/// and records server share, aggregate key and address on the matching rows.
/// The aggregate key is recomputed here from the two shares, never copied
/// from elsewhere.
pub fn create_agg_pub_key(
    store: &mut KeyStore,
    client_pubkey: &Vec<u8>,
    server_pubkey: &Vec<u8>,
    network: Network,
) -> (r: Result<(MusigContext, String), CError>)
    ensures
        r is Ok <==> (crypto::is_valid_pubkey(client_pubkey@) && crypto::is_valid_pubkey(
            server_pubkey@,
        ) && crypto::tweak_ok(spec_aggregate_key(client_pubkey@, server_pubkey@))),
        r matches Err(e) ==> e == CError::Crypto,
        r matches Ok(t) ==> ({
            &&& t.0.wf()
            &&& t.0.key_a@ == canon_first(client_pubkey@, server_pubkey@)
            &&& t.0.key_b@ == canon_second(client_pubkey@, server_pubkey@)
            &&& t.1@ == crypto::p2tr_address_of(t.0.agg_pk@, network.spec_hrp_code())
        }),
        r matches Ok(t) ==> ({
            &&& final(store).seed == old(store).seed
            &&& final(store).rows@.len() == old(store).rows@.len()
            &&& forall|i: int|
                0 <= i < old(store).rows@.len() ==> if old(
                    store,
                ).rows@[i].client_pubkey_share@ == client_pubkey@ {
                    spec_row_agg_updated(
                        old(store).rows@[i],
                        #[trigger] final(store).rows@[i],
                        server_pubkey@,
                        t.0.agg_pk@,
                        t.1@,
                    )
                } else {
                    final(store).rows@[i] == old(store).rows@[i]
                }
        }),
        r is Err ==> *final(store) == *old(store),
{
    let ctx = match aggregate(client_pubkey, server_pubkey) {
        Err(e) => {
            return Err(e);
        },
        Ok(c) => c,
    };
    let (_output_key, address) = match taproot_output_key(&ctx, network) {
        Err(e) => {
            return Err(e);
        },
        Ok(t) => t,
    };
    let n = store.rows.len();
    let mut i: usize = 0;
    while i < n
        invariant
            n == store.rows@.len(),
            n == old(store).rows@.len(),
            i <= n,
            store.seed == old(store).seed,
            ctx.wf(),
            forall|j: int| i <= j < n ==> store.rows@[j] == old(store).rows@[j],
            forall|j: int|
                0 <= j < i ==> if old(store).rows@[j].client_pubkey_share@ == client_pubkey@ {
                    spec_row_agg_updated(
                        old(store).rows@[j],
                        #[trigger] store.rows@[j],
                        server_pubkey@,
                        ctx.agg_pk@,
                        address@,
                    )
                } else {
                    store.rows@[j] == old(store).rows@[j]
                },
        decreases n - i,
    {
        let matches_key = bytes_equal(&store.rows[i].client_pubkey_share, client_pubkey);
        if matches_key {
            let mut row = store.rows.remove(i);
            row.server_pubkey_share = Some(clone_bytes(server_pubkey));
            row.aggregated_pubkey = Some(clone_bytes(&ctx.agg_pk));
            row.p2tr_agg_address = Some(address.clone());
            store.rows.insert(i, row);
        }
        i = i + 1;
    }
    Ok((ctx, address))
}

/// The output amount of the backup transaction: the funding amount minus the
/// exact absolute fee (fixed virtual size times the fee rate). `None` exactly
/// when the fee does not fit under the funding amount: underfunding is
/// surfaced, never corrected silently.
pub fn compute_output_amount(funding_value: u64, fee_rate_sats_per_vb: u64) -> (r: Option<u64>)
    ensures
        r is Some <==> TX_SIZE * fee_rate_sats_per_vb <= funding_value,
        r matches Some(v) ==> v == funding_value - TX_SIZE * fee_rate_sats_per_vb,
{
    if fee_rate_sats_per_vb > u64::MAX / TX_SIZE {
        proof {
            assert(TX_SIZE * fee_rate_sats_per_vb > funding_value) by (nonlinear_arith)
                requires
                    fee_rate_sats_per_vb > u64::MAX / TX_SIZE,
                    funding_value <= u64::MAX,
                    TX_SIZE == 112,
            ;
        }
        return None;
    }
    let fee = TX_SIZE * fee_rate_sats_per_vb;
    if fee > funding_value {
        None
    } else {
        Some(funding_value - fee)
    }
}

/// The absolute locktime of the backup transaction: the funding height plus
/// the maturity window. `None` when that leaves the block-height range of
/// absolute locktimes.
pub fn backup_locktime(funding_height: u32) -> (r: Option<u32>)
    ensures
        r is Some <==> funding_height + MATURITY_WINDOW < 500000000,
        r matches Some(h) ==> h == funding_height + MATURITY_WINDOW,
{
    if funding_height >= 500000000 - MATURITY_WINDOW {
        None
    } else {
        Some(funding_height + MATURITY_WINDOW)
    }
}

/// The stages of one deposit workflow, in order.
#[derive(Debug, Clone, Copy, PartialEq, Eq, Structural)]
pub enum DepositStage {
    Requested,
    KeysDerived,
    Registered,
    Aggregated,
    AwaitingFunding,
    Funded,
    Signed,
    Broadcast,
}

/// The stage that follows a given one; `None` past the terminal stage. The
/// workflow only ever moves forward through this chain.
pub fn next_stage(stage: DepositStage) -> (r: Option<DepositStage>)
    ensures
        r == (match stage {
            DepositStage::Requested => Some(DepositStage::KeysDerived),
            DepositStage::KeysDerived => Some(DepositStage::Registered),
            DepositStage::Registered => Some(DepositStage::Aggregated),
            DepositStage::Aggregated => Some(DepositStage::AwaitingFunding),
            DepositStage::AwaitingFunding => Some(DepositStage::Funded),
            DepositStage::Funded => Some(DepositStage::Signed),
            DepositStage::Signed => Some(DepositStage::Broadcast),
            DepositStage::Broadcast => None,
        }),
{
    match stage {
        DepositStage::Requested => Some(DepositStage::KeysDerived),
        DepositStage::KeysDerived => Some(DepositStage::Registered),
        DepositStage::Registered => Some(DepositStage::Aggregated),
        DepositStage::Aggregated => Some(DepositStage::AwaitingFunding),
        DepositStage::AwaitingFunding => Some(DepositStage::Funded),
        DepositStage::Funded => Some(DepositStage::Signed),
        DepositStage::Signed => Some(DepositStage::Broadcast),
        DepositStage::Broadcast => None,
    }
}

} // verus!
