//! Deterministic hierarchical key derivation and the in-memory model of the
//! signer store: the single seed, the derived key shares, and address-index
//! allocation.
use vstd::prelude::*;
use vstd::string::*;

use crate::crypto;
use crate::hexutil::{clone_bytes, clone_opt_string, clone_u32s};
use crate::CError;
use crate::Network;

verus! {

/// ASCII decimal digit.
pub open spec fn is_digit(b: u8) -> bool {
    48 <= b && b <= 57
}

/// A derivation path such as `m/86h/0h/0h`, parsed: one raw child number per
/// segment, with the high bit set for hardened children (marked `h` or `'`).
///
/// The grammar is `m` followed by zero or more `/seg`, where a segment is a
/// nonempty digit run below 2^31, optionally ending in a hardened marker.
pub open spec fn spec_parse_path(s: Seq<u8>) -> Option<Seq<u32>> {
    if s.len() >= 1 && s[0] == 109 {
        if s.len() == 1 {
            Some(Seq::empty())
        } else {
            spec_path_rec(s, 1)
        }
    } else {
        None
    }
}

/// Parses `/seg` groups from `pos` to the end of the path.
pub open spec fn spec_path_rec(s: Seq<u8>, pos: int) -> Option<Seq<u32>>
    decreases s.len() - pos,
    via spec_path_rec_decreases
{
    if !(0 <= pos < s.len()) || s[pos] != 47 {
        None
    } else {
        match spec_seg_rec(s, pos + 1, 0, false) {
            Option::None => None,
            Option::Some((v, end)) => {
                if end == s.len() {
                    Some(seq![v])
                } else {
                    match spec_path_rec(s, end) {
                        Option::None => None,
                        Option::Some(rest) => Some(seq![v] + rest),
                    }
                }
            },
        }
    }
}

#[via_fn]
proof fn spec_path_rec_decreases(s: Seq<u8>, pos: int) {
    if 0 <= pos < s.len() && s[pos] == 47 {
        lemma_seg_rec_bounds(s, pos + 1, 0, false);
    }
}

/// One segment scanned from `pos` with the digit value accumulated so far:
/// returns the raw child number and the position just past the segment, which
/// is the end of the path or a `/`.
pub open spec fn spec_seg_rec(s: Seq<u8>, pos: int, acc: int, seen: bool) -> Option<(u32, int)>
    decreases s.len() - pos,
{
    if !(0 <= pos <= s.len()) {
        None
    } else if pos == s.len() {
        if seen && 0 <= acc < 0x80000000 {
            Some((acc as u32, pos))
        } else {
            None
        }
    } else if is_digit(s[pos]) {
        spec_seg_rec(s, pos + 1, acc * 10 + (s[pos] - 48), true)
    } else if s[pos] == 47 {
        if seen && 0 <= acc < 0x80000000 {
            Some((acc as u32, pos))
        } else {
            None
        }
    } else if (s[pos] == 104 || s[pos] == 39) && seen && 0 <= acc < 0x80000000 {
        if pos + 1 == s.len() || s[pos + 1] == 47 {
            Some(((acc + 0x80000000) as u32, pos + 1))
        } else {
            None
        }
    } else {
        None
    }
}

/// A parsed segment ends at the end of the path or at a separator.
pub proof fn lemma_seg_rec_bounds(s: Seq<u8>, pos: int, acc: int, seen: bool)
    ensures
        spec_seg_rec(s, pos, acc, seen) matches Some(t) ==> pos <= t.1 && t.1 <= s.len() && (t.1
            == s.len() || s[t.1] == 47),
    decreases s.len() - pos,
{
    if 0 <= pos < s.len() && is_digit(s[pos]) {
        lemma_seg_rec_bounds(s, pos + 1, acc * 10 + (s[pos] - 48), true);
    }
}

/// Parses a derivation path; `None` exactly when the bytes do not follow the
/// grammar of `spec_parse_path`.
pub fn parse_path_bytes(v: &Vec<u8>) -> (r: Option<Vec<u32>>)
    ensures
        r is Some <==> spec_parse_path(v@) is Some,
        r matches Some(p) ==> spec_parse_path(v@) == Some(p@),
{
    let vlen = v.len();
    if vlen == 0 || v[0] != 109 {
        return None;
    }
    if vlen == 1 {
        let empty: Vec<u32> = Vec::new();
        proof {
            assert(empty@ =~= Seq::<u32>::empty());
        }
        return Some(empty);
    }
    let mut out: Vec<u32> = Vec::new();
    let mut pos: usize = 1;
    loop
        invariant
            1 <= pos < vlen,
            vlen == v@.len(),
            spec_parse_path(v@) == (match spec_path_rec(v@, pos as int) {
                Option::None => Option::<Seq<u32>>::None,
                Option::Some(rest) => Option::Some(out@ + rest),
            }),
        decreases vlen - pos,
    {
        if v[pos] != 47 {
            return None;
        }
        let mut i: usize = pos + 1;
        let mut acc: u64 = 0;
        let mut seen = false;
        let ghost mut acc_spec: int = 0int;
        let mut hardened = false;
        let mut end: usize = 0;
        loop
            invariant_except_break
                !hardened,
            invariant
                pos + 1 <= i <= vlen,
                1 <= pos < vlen,
                vlen == v@.len(),
                spec_parse_path(v@) == (match spec_path_rec(v@, pos as int) {
                    Option::None => Option::<Seq<u32>>::None,
                    Option::Some(rest) => Option::Some(out@ + rest),
                }),
                acc_spec >= 0,
                acc_spec < 0x80000000 ==> acc == acc_spec,
                acc_spec >= 0x80000000 ==> acc >= 0x80000000,
                spec_seg_rec(v@, pos + 1, 0, false) == spec_seg_rec(v@, i as int, acc_spec, seen),
            ensures
                acc_spec >= 0,
                acc_spec < 0x80000000 ==> acc == acc_spec,
                acc_spec >= 0x80000000 ==> acc >= 0x80000000,
                hardened ==> seen && acc_spec < 0x80000000,
                pos + 1 <= end <= vlen,
                ({
                    let expected = if seen && acc_spec < 0x80000000 {
                        Option::Some(
                            (
                                ((acc_spec + (if hardened {
                                    0x80000000int
                                } else {
                                    0int
                                })) as u32),
                                end as int,
                            ),
                        )
                    } else {
                        Option::<(u32, int)>::None
                    };
                    spec_seg_rec(v@, pos + 1, 0, false) == expected
                }),
            decreases vlen - i,
        {
            if i == vlen {
                end = i;
                break ;
            }
            let b = v[i];
            if 48 <= b && b <= 57 {
                proof {
                    acc_spec = acc_spec * 10 + (b - 48);
                }
                if acc < 0x80000000 {
                    acc = acc * 10 + ((b - 48) as u64);
                }
                seen = true;
                i = i + 1;
            } else if b == 47 {
                end = i;
                break ;
            } else if (b == 104 || b == 39) && seen && acc < 0x80000000 {
                if i + 1 == vlen {
                    hardened = true;
                    end = i + 1;
                    break ;
                } else if v[i + 1] == 47 {
                    hardened = true;
                    end = i + 1;
                    break ;
                } else {
                    proof {
                        assert(spec_seg_rec(v@, i as int, acc_spec, seen) is None);
                    }
                    return None;
                }
            } else {
                proof {
                    assert(spec_seg_rec(v@, i as int, acc_spec, seen) is None);
                }
                return None;
            }
        }
        // At `end` the segment stopped at the end of the path, at `/`, or just
        // past a hardened marker; the spec value is the terminal case.
        if !seen || acc >= 0x80000000 {
            proof {
                assert(spec_seg_rec(v@, pos + 1, 0, false) is None);
            }
            return None;
        }
        let val: u32 = if hardened {
            (acc as u32) + 0x80000000
        } else {
            acc as u32
        };
        proof {
            assert(spec_seg_rec(v@, pos + 1, 0, false) matches Some(t) && t.0 == val && t.1
                == end);
        }
        let ghost old_out = out@;
        out.push(val);
        if end == vlen {
            proof {
                assert(spec_path_rec(v@, pos as int) == Some(seq![val]));
                assert(old_out + seq![val] =~= out@);
            }
            return Some(out);
        }
        proof {
            assert(spec_path_rec(v@, pos as int) == (match spec_path_rec(v@, end as int) {
                Option::None => Option::<Seq<u32>>::None,
                Option::Some(rest) => Option::Some(seq![val] + rest),
            }));
            let r2 = spec_path_rec(v@, end as int);
            if r2 is Some {
                assert(old_out + (seq![val] + r2->Some_0) =~= out@ + r2->Some_0);
            }
        }
        pos = end;
    }
}

/// Parses a derivation path given as a string slice.
pub fn parse_derivation_path(s: &str) -> (r: Option<Vec<u32>>)
    ensures
        r is Some <==> spec_parse_path(s.spec_bytes()) is Some,
        r matches Some(p) ==> spec_parse_path(s.spec_bytes()) == Some(p@),
{
    let bytes = s.as_bytes_vec();
    parse_path_bytes(&bytes)
}

/// The full derivation path of one key share: the account path with the
/// change and address indices appended as normal children.
pub open spec fn spec_full_path(base: Seq<u32>, change_index: u32, address_index: u32) -> Seq<
    u32,
> {
    base + seq![change_index, address_index]
}

/// Key material for one share, as the derivation engine hands it out.
pub struct KeyData {
    pub token_id: Option<String>,
    pub secret_key: Vec<u8>,
    pub public_key: Vec<u8>,
    pub fingerprint: Vec<u8>,
    pub derivation_path: Vec<u32>,
    pub change_index: u32,
    pub address_index: u32,
}

/// One row of the signer table.
pub struct SignerRow {
    pub token_id: Option<String>,
    pub client_seckey_share: Vec<u8>,
    pub client_pubkey_share: Vec<u8>,
    pub fingerprint: Vec<u8>,
    pub agg_key_derivation_path: Vec<u32>,
    pub change_index: u32,
    pub address_index: u32,
    pub auth_derivation_path: Option<Vec<u32>>,
    pub auth_seckey: Option<Vec<u8>>,
    pub auth_pubkey: Option<Vec<u8>>,
    pub statechain_id: Option<String>,
    pub server_pubkey_share: Option<Vec<u8>>,
    pub aggregated_pubkey: Option<Vec<u8>>,
    pub p2tr_agg_address: Option<String>,
}

/// In-memory model of the persistent signer store: at most one seed, and the
/// deposit rows in insertion order.
pub struct KeyStore {
    pub seed: Option<Vec<u8>>,
    pub rows: Vec<SignerRow>,
}

impl KeyStore {
    /// An empty store: no seed, no rows.
    pub fn new() -> (r: KeyStore)
        ensures
            r.seed is None,
            r.rows@.len() == 0,
    {
        KeyStore { seed: None, rows: Vec::new() }
    }
}

/// Returns the persisted 256-bit seed, creating and storing a random one on
/// first use. The rows are untouched, and an existing seed is never replaced.
pub fn generate_or_get_seed(store: &mut KeyStore) -> (r: Vec<u8>)
    ensures
        final(store).rows@ == old(store).rows@,
        final(store).seed matches Some(s) && s@ == r@,
        old(store).seed matches Some(s0) ==> r@ == s0@,
        old(store).seed is None ==> r@.len() == 32,
{
    if store.seed.is_some() {
        let s = clone_bytes(store.seed.as_ref().unwrap());
        s
    } else {
        let s = crypto::rand_bytes32();
        let c = clone_bytes(&s);
        store.seed = Some(c);
        s
    }
}

/// One more than the highest address index any row uses on the given change
/// chain; zero if none does.
pub open spec fn spec_next_index(rows: Seq<SignerRow>, change_index: u32) -> int
    decreases rows.len(),
{
    if rows.len() == 0 {
        0
    } else {
        let rest = spec_next_index(rows.drop_last(), change_index);
        let last = rows.last();
        if last.change_index == change_index && last.address_index + 1 > rest {
            last.address_index + 1
        } else {
            rest
        }
    }
}

/// The next index never shrinks as rows accumulate.
pub proof fn lemma_next_index_take_le(rows: Seq<SignerRow>, change_index: u32, i: int)
    requires
        0 <= i <= rows.len(),
    ensures
        0 <= spec_next_index(rows.take(i), change_index) <= spec_next_index(rows, change_index),
    decreases rows.len() - i,
{
    if i == rows.len() {
        assert(rows.take(i) =~= rows);
        lemma_next_index_nonneg(rows, change_index);
    } else {
        lemma_next_index_take_le(rows, change_index, i + 1);
        lemma_next_index_nonneg(rows.take(i), change_index);
        assert(rows.take(i + 1).drop_last() =~= rows.take(i));
        assert(rows.take(i + 1).last() == rows[i]);
    }
}

pub proof fn lemma_next_index_nonneg(rows: Seq<SignerRow>, change_index: u32)
    ensures
        spec_next_index(rows, change_index) >= 0,
    decreases rows.len(),
{
    if rows.len() > 0 {
        lemma_next_index_nonneg(rows.drop_last(), change_index);
    }
}

/// Index monotonicity: claiming the issued index with a new row makes the
/// next issued index exactly one greater, so sequential use yields 0, 1, 2,
/// ... with no duplicates.
pub proof fn lemma_next_index_monotonic(rows: Seq<SignerRow>, row: SignerRow, change_index: u32)
    requires
        row.change_index == change_index,
        row.address_index == spec_next_index(rows, change_index),
    ensures
        spec_next_index(rows.push(row), change_index) == spec_next_index(rows, change_index) + 1,
{
    assert(rows.push(row).drop_last() =~= rows);
    assert(rows.push(row).last() == row);
}

/// The next index reads only each row's change chain and address index:
/// stores that agree on those agree on it.
pub proof fn lemma_next_index_congruent(r1: Seq<SignerRow>, r2: Seq<SignerRow>, change_index: u32)
    requires
        r1.len() == r2.len(),
        forall|i: int|
            0 <= i < r1.len() ==> #[trigger] r1[i].change_index == r2[i].change_index
                && r1[i].address_index == r2[i].address_index,
    ensures
        spec_next_index(r1, change_index) == spec_next_index(r2, change_index),
    decreases r1.len(),
{
    if r1.len() > 0 {
        assert(r1[r1.len() - 1].change_index == r2[r1.len() - 1].change_index);
        lemma_next_index_congruent(r1.drop_last(), r2.drop_last(), change_index);
    }
}

/// Every index already claimed on a change chain lies below the next issued
/// one: the next index is never a duplicate.
pub proof fn lemma_next_index_fresh(rows: Seq<SignerRow>, change_index: u32, i: int)
    requires
        0 <= i < rows.len(),
        rows[i].change_index == change_index,
    ensures
        rows[i].address_index < spec_next_index(rows, change_index),
    decreases rows.len(),
{
    lemma_next_index_nonneg(rows.drop_last(), change_index);
    if i < rows.len() - 1 {
        lemma_next_index_fresh(rows.drop_last(), change_index, i);
    }
}

/// Returns one greater than the maximum previously used address index for the
/// change chain, or zero if none was used.
pub fn get_next_address_index(store: &KeyStore, change_index: u32) -> (r: u32)
    requires
        spec_next_index(store.rows@, change_index) <= u32::MAX,
    ensures
        r == spec_next_index(store.rows@, change_index),
{
    let mut acc: u32 = 0;
    let mut i: usize = 0;
    while i < store.rows.len()
        invariant
            i <= store.rows@.len(),
            spec_next_index(store.rows@, change_index) <= u32::MAX,
            acc == spec_next_index(store.rows@.take(i as int), change_index),
        decreases store.rows@.len() - i,
    {
        proof {
            lemma_next_index_take_le(store.rows@, change_index, i + 1);
            assert(store.rows@.take(i + 1).drop_last() =~= store.rows@.take(i as int));
            assert(store.rows@.take(i + 1).last() == store.rows@[i as int]);
        }
        let row_change = store.rows[i].change_index;
        let row_addr = store.rows[i].address_index;
        if row_change == change_index && row_addr >= acc {
            acc = row_addr + 1;
        }
        i = i + 1;
    }
    proof {
        assert(store.rows@.take(store.rows@.len() as int) =~= store.rows@);
    }
    acc
}

/// Derives a new key share from the store's seed: master key, hardened
/// account path, then the change and address indices. Deterministic in seed,
/// path and indices. Fails with `CError::Crypto` when the path is malformed
/// or the derived bytes do not form a key.
pub fn generate_new_key(
    store: &mut KeyStore,
    derivation_path: &str,
    change_index: u32,
    address_index: u32,
    network: Network,
) -> (r: Result<KeyData, CError>)
    ensures
        final(store).rows@ == old(store).rows@,
        final(store).seed is Some,
        old(store).seed matches Some(s0) ==> (final(store).seed matches Some(s1) && s1@ == s0@),
        r matches Err(e) ==> e == CError::Crypto,
        r matches Ok(kd) ==> kd.public_key@ == crypto::pubkey_of_secret(kd.secret_key@)
            && crypto::is_valid_seckey(kd.secret_key@),
        r is Ok <==> (spec_parse_path(derivation_path.spec_bytes()) matches Some(base)
            && final(store).seed matches Some(seed) && crypto::bip32_ok(
            seed@,
            spec_full_path(base, change_index, address_index),
            network.spec_is_mainnet(),
        )),
        r matches Ok(kd) ==> (spec_parse_path(derivation_path.spec_bytes()) matches Some(base)
            && final(store).seed matches Some(seed) && {
            let full = spec_full_path(base, change_index, address_index);
            &&& kd.derivation_path@ == full
            &&& kd.secret_key@ == crypto::derived_secret_key(
                seed@,
                full,
                network.spec_is_mainnet(),
            )
            &&& kd.public_key@ == crypto::derived_public_key(
                seed@,
                full,
                network.spec_is_mainnet(),
            )
            &&& kd.fingerprint@ == crypto::master_fingerprint(seed@, network.spec_is_mainnet())
            &&& kd.secret_key@.len() == 32
            &&& kd.public_key@.len() == 33
            &&& kd.fingerprint@.len() == 4
            &&& kd.token_id is None
            &&& kd.change_index == change_index
            &&& kd.address_index == address_index
        }),
{
    let seed = generate_or_get_seed(store);
    let parsed = parse_derivation_path(derivation_path);
    match parsed {
        None => Err(CError::Crypto),
        Some(mut path) => {
            let ghost base = path@;
            path.push(change_index);
            path.push(address_index);
            proof {
                assert(path@ =~= spec_full_path(base, change_index, address_index));
            }
            match crypto::bip32_derive(&seed, &path, network.is_mainnet()) {
                None => Err(CError::Crypto),
                Some((sk, pk, fp)) => Ok(
                    KeyData {
                        token_id: None,
                        secret_key: sk,
                        public_key: pk,
                        fingerprint: fp,
                        derivation_path: path,
                        change_index,
                        address_index,
                    },
                ),
            }
        },
    }
}

/// Determinism of derivation: two shares derived from the same seed, path and
/// network carry identical key material.
pub proof fn lemma_derive_deterministic(
    seed: Seq<u8>,
    path: Seq<u32>,
    mainnet: bool,
    kd1: KeyData,
    kd2: KeyData,
)
    requires
        kd1.secret_key@ == crypto::derived_secret_key(seed, path, mainnet),
        kd1.public_key@ == crypto::derived_public_key(seed, path, mainnet),
        kd2.secret_key@ == crypto::derived_secret_key(seed, path, mainnet),
        kd2.public_key@ == crypto::derived_public_key(seed, path, mainnet),
    ensures
        kd1.secret_key@ == kd2.secret_key@,
        kd1.public_key@ == kd2.public_key@,
{
}

/// How an inserted row mirrors the key share it was made from.
pub open spec fn spec_row_of_key_data(row: SignerRow, kd: KeyData) -> bool {
    &&& (kd.token_id matches Some(t) ==> (row.token_id matches Some(t2) && t2@ == t@))
    &&& (row.token_id is Some <==> kd.token_id is Some)
    &&& row.client_seckey_share@ == kd.secret_key@
    &&& row.client_pubkey_share@ == kd.public_key@
    &&& row.fingerprint@ == kd.fingerprint@
    &&& row.agg_key_derivation_path@ == kd.derivation_path@
    &&& row.change_index == kd.change_index
    &&& row.address_index == kd.address_index
    &&& row.auth_derivation_path is None
    &&& row.auth_seckey is None
    &&& row.auth_pubkey is None
    &&& row.statechain_id is None
    &&& row.server_pubkey_share is None
    &&& row.aggregated_pubkey is None
    &&& row.p2tr_agg_address is None
}

/// Persists a freshly derived aggregate-key share as a new row. The share
/// must already carry its token.
pub fn insert_agg_key_data(store: &mut KeyStore, key_data: &KeyData)
    requires
        key_data.token_id is Some,
    ensures
        final(store).seed == old(store).seed,
        final(store).rows@.len() == old(store).rows@.len() + 1,
        final(store).rows@.drop_last() == old(store).rows@,
        spec_row_of_key_data(final(store).rows@.last(), *key_data),
{
    let row = SignerRow {
        token_id: clone_opt_string(&key_data.token_id),
        client_seckey_share: clone_bytes(&key_data.secret_key),
        client_pubkey_share: clone_bytes(&key_data.public_key),
        fingerprint: clone_bytes(&key_data.fingerprint),
        agg_key_derivation_path: clone_u32s(&key_data.derivation_path),
        change_index: key_data.change_index,
        address_index: key_data.address_index,
        auth_derivation_path: None,
        auth_seckey: None,
        auth_pubkey: None,
        statechain_id: None,
        server_pubkey_share: None,
        aggregated_pubkey: None,
        p2tr_agg_address: None,
    };
    store.rows.push(row);
    proof {
        assert(final(store).rows@.drop_last() =~= old(store).rows@);
    }
}

/// How a row looks after the authentication share is attached to it.
pub open spec fn spec_row_auth_updated(o: SignerRow, n: SignerRow, kd: KeyData) -> bool {
    &&& (n.auth_derivation_path matches Some(p) && p@ == kd.derivation_path@)
    &&& (n.auth_seckey matches Some(sk) && sk@ == kd.secret_key@)
    &&& (n.auth_pubkey matches Some(pk) && pk@ == kd.public_key@)
    &&& n.token_id == o.token_id
    &&& n.client_seckey_share == o.client_seckey_share
    &&& n.client_pubkey_share == o.client_pubkey_share
    &&& n.fingerprint == o.fingerprint
    &&& n.agg_key_derivation_path == o.agg_key_derivation_path
    &&& n.change_index == o.change_index
    &&& n.address_index == o.address_index
    &&& n.statechain_id == o.statechain_id
    &&& n.server_pubkey_share == o.server_pubkey_share
    &&& n.aggregated_pubkey == o.aggregated_pubkey
    &&& n.p2tr_agg_address == o.p2tr_agg_address
}

/// Attaches the authentication share to every row whose client public key
/// share matches; other rows stay as they are.
pub fn update_auth_key_data(store: &mut KeyStore, key_data: &KeyData, client_pubkey_share: &Vec<
    u8,
>)
    ensures
        final(store).seed == old(store).seed,
        final(store).rows@.len() == old(store).rows@.len(),
        forall|i: int|
            0 <= i < old(store).rows@.len() ==> if old(
                store,
            ).rows@[i].client_pubkey_share@ == client_pubkey_share@ {
                spec_row_auth_updated(old(store).rows@[i], #[trigger] final(store).rows@[i], *key_data)
            } else {
                final(store).rows@[i] == old(store).rows@[i]
            },
{
    let n = store.rows.len();
    let mut i: usize = 0;
    while i < n
        invariant
            n == store.rows@.len(),
            n == old(store).rows@.len(),
            i <= n,
            store.seed == old(store).seed,
            forall|j: int| i <= j < n ==> store.rows@[j] == old(store).rows@[j],
            forall|j: int|
                0 <= j < i ==> if old(store).rows@[j].client_pubkey_share@
                    == client_pubkey_share@ {
                    spec_row_auth_updated(old(store).rows@[j], #[trigger] store.rows@[j], *key_data)
                } else {
                    store.rows@[j] == old(store).rows@[j]
                },
        decreases n - i,
    {
        let matches_key = crate::hexutil::bytes_equal(
            &store.rows[i].client_pubkey_share,
            client_pubkey_share,
        );
        if matches_key {
            let mut row = store.rows.remove(i);
            row.auth_derivation_path = Some(clone_u32s(&key_data.derivation_path));
            row.auth_seckey = Some(clone_bytes(&key_data.secret_key));
            row.auth_pubkey = Some(clone_bytes(&key_data.public_key));
            store.rows.insert(i, row);
            proof {
                assert forall|j: int| i < j < n implies store.rows@[j] == old(store).rows@[j] by {}
            }
        }
        i = i + 1;
    }
}

} // verus!
