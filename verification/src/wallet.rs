//! Reading the wallet back out of the store.
use vstd::prelude::*;

use crate::key_derivation::{KeyStore, SignerRow};

verus! {

/// The addresses of all rows that have one, in row order.
pub open spec fn spec_addresses(rows: Seq<SignerRow>) -> Seq<Seq<char>>
    decreases rows.len(),
{
    if rows.len() == 0 {
        Seq::empty()
    } else {
        spec_addresses(rows.drop_last()) + (match rows.last().p2tr_agg_address {
            Option::Some(a) => seq![a@],
            Option::None => Seq::empty(),
        })
    }
}

/// Returns every aggregate taproot address the store holds, in row order.
pub fn get_all_addresses(store: &KeyStore) -> (r: Vec<String>)
    ensures
        r@.map_values(|s: String| s@) == spec_addresses(store.rows@),
{
    let mut out: Vec<String> = Vec::new();
    let mut i: usize = 0;
    while i < store.rows.len()
        invariant
            i <= store.rows@.len(),
            out@.map_values(|s: String| s@) == spec_addresses(store.rows@.take(i as int)),
        decreases store.rows@.len() - i,
    {
        proof {
            assert(store.rows@.take(i + 1).drop_last() =~= store.rows@.take(i as int));
            assert(store.rows@.take(i + 1).last() == store.rows@[i as int]);
        }
        let ghost prev = out@;
        match &store.rows[i].p2tr_agg_address {
            Some(a) => {
                out.push(a.clone());
                proof {
                    assert(out@.map_values(|s: String| s@) =~= prev.map_values(|s: String| s@)
                        + seq![store.rows@[i as int].p2tr_agg_address->Some_0@]);
                }
            },
            None => {
                proof {
                    assert(spec_addresses(store.rows@.take(i + 1)) =~= spec_addresses(
                        store.rows@.take(i as int),
                    ));
                }
            },
        }
        i = i + 1;
    }
    proof {
        assert(store.rows@.take(store.rows@.len() as int) =~= store.rows@);
    }
    out
}

} // verus!
