//! Hexadecimal encoding and decoding of byte strings, with an exact
//! specification, plus helpers shared by the wire-facing modules.
use vstd::prelude::*;

verus! {

/// The lower-case hex digit for a nibble.
pub open spec fn hex_digit(n: u8) -> u8
    recommends
        n < 16,
{
    if n < 10 {
        (48 + n) as u8
    } else {
        (87 + n) as u8
    }
}

/// Whether a byte is an ASCII hex digit (either case).
pub open spec fn is_hex_digit(b: u8) -> bool {
    (48 <= b && b <= 57) || (97 <= b && b <= 102) || (65 <= b && b <= 70)
}

/// The value of an ASCII hex digit.
pub open spec fn hex_val(b: u8) -> u8
    recommends
        is_hex_digit(b),
{
    if 48 <= b && b <= 57 {
        (b - 48) as u8
    } else if 97 <= b && b <= 102 {
        (b - 87) as u8
    } else {
        (b - 55) as u8
    }
}

/// Lower-case hex encoding of a byte string: two digits per byte.
pub open spec fn spec_hex_encode(bs: Seq<u8>) -> Seq<u8> {
    Seq::new(
        bs.len() * 2,
        |i: int|
            if i % 2 == 0 {
                hex_digit(bs[i / 2] / 16)
            } else {
                hex_digit(bs[i / 2] % 16)
            },
    )
}

/// Whether a byte string is well-formed hex: even length, digits only.
pub open spec fn spec_is_hex(s: Seq<u8>) -> bool {
    s.len() % 2 == 0 && (forall|i: int| 0 <= i < s.len() ==> is_hex_digit(#[trigger] s[i]))
}

/// The bytes a well-formed hex string denotes.
pub open spec fn spec_hex_decode(s: Seq<u8>) -> Seq<u8> {
    Seq::new(s.len() / 2, |i: int| (hex_val(s[2 * i]) * 16 + hex_val(s[2 * i + 1])) as u8)
}

/// ASCII bytes read as characters, one for one.
pub open spec fn ascii_chars(s: Seq<u8>) -> Seq<char> {
    s.map_values(|b: u8| b as char)
}

/// Relies on `String::from_utf8`: bytes that are valid UTF-8 become the string
/// of exactly those bytes, and ASCII bytes decode to one character each.
#[verifier::external_body]
pub fn ascii_string(v: &Vec<u8>) -> (r: String)
    requires
        forall|i: int| 0 <= i < v@.len() ==> v@[i] < 128,
    ensures
        r@ == ascii_chars(v@),
{
    String::from_utf8(v.clone()).unwrap_or_default()
}

/// Hex digits are ASCII hex digits that decode to their nibble.
pub proof fn lemma_hex_digit_ascii(n: u8)
    requires
        n < 16,
    ensures
        hex_digit(n) < 128,
        is_hex_digit(hex_digit(n)),
        hex_val(hex_digit(n)) == n,
{
}

/// Encoding then decoding gives the bytes back.
pub proof fn lemma_hex_round_trip(bs: Seq<u8>)
    ensures
        spec_is_hex(spec_hex_encode(bs)),
        spec_hex_decode(spec_hex_encode(bs)) == bs,
{
    let enc = spec_hex_encode(bs);
    assert forall|i: int| 0 <= i < enc.len() implies is_hex_digit(#[trigger] enc[i]) by {
        if i % 2 == 0 {
            assert(enc[i] == hex_digit(bs[i / 2] / 16));
        } else {
            assert(enc[i] == hex_digit(bs[i / 2] % 16));
        }
    }
    assert(spec_hex_decode(enc) =~= bs) by {
        assert forall|i: int| 0 <= i < bs.len() implies spec_hex_decode(enc)[i] == bs[i] by {
            assert(enc[2 * i] == hex_digit(bs[i] / 16));
            assert(enc[2 * i + 1] == hex_digit(bs[i] % 16));
            assert(hex_val(hex_digit(bs[i] / 16)) == bs[i] / 16);
            assert(hex_val(hex_digit(bs[i] % 16)) == bs[i] % 16);
        }
    }
}

/// Lower-case hex encoding of a byte string, as ASCII bytes.
pub fn hex_encode_bytes(bs: &Vec<u8>) -> (r: Vec<u8>)
    ensures
        r@ == spec_hex_encode(bs@),
        r@.len() == bs@.len() * 2,
{
    let mut out: Vec<u8> = Vec::new();
    let mut i: usize = 0;
    while i < bs.len()
        invariant
            i <= bs@.len(),
            out@.len() == i * 2,
            forall|j: int| 0 <= j < out@.len() ==> out@[j] == spec_hex_encode(bs@)[j],
        decreases bs@.len() - i,
    {
        let b = bs[i];
        let hi = b / 16;
        let lo = b % 16;
        let hi_d = if hi < 10 {
            48 + hi
        } else {
            87 + hi
        };
        let lo_d = if lo < 10 {
            48 + lo
        } else {
            87 + lo
        };
        out.push(hi_d);
        out.push(lo_d);
        i = i + 1;
    }
    proof {
        assert(out@ =~= spec_hex_encode(bs@));
    }
    out
}

/// Lower-case hex encoding of a byte string, as a `String`.
pub fn hex_encode_string(bs: &Vec<u8>) -> (r: String)
    ensures
        r@ == ascii_chars(spec_hex_encode(bs@)),
{
    let enc = hex_encode_bytes(bs);
    proof {
        assert forall|i: int| 0 <= i < enc@.len() implies enc@[i] < 128 by {
            lemma_hex_digit_ascii(bs@[i / 2] / 16);
            lemma_hex_digit_ascii(bs@[i / 2] % 16);
        }
    }
    ascii_string(&enc)
}

/// Decodes a hex byte string; `None` exactly on malformed input.
pub fn hex_decode(s: &Vec<u8>) -> (r: Option<Vec<u8>>)
    ensures
        r is Some <==> spec_is_hex(s@),
        r matches Some(v) ==> v@ == spec_hex_decode(s@),
{
    if s.len() % 2 != 0 {
        return None;
    }
    let mut out: Vec<u8> = Vec::new();
    let mut i: usize = 0;
    while i < s.len()
        invariant
            s@.len() % 2 == 0,
            i % 2 == 0,
            i <= s@.len(),
            out@.len() == i / 2,
            forall|j: int| 0 <= j < i ==> is_hex_digit(#[trigger] s@[j]),
            forall|j: int| 0 <= j < out@.len() ==> out@[j] == spec_hex_decode(s@)[j],
        decreases s@.len() - i,
    {
        let hi = s[i];
        let lo = s[i + 1];
        let hv = match hex_nibble(hi) {
            Some(v) => v,
            None => {
                return None;
            },
        };
        let lv = match hex_nibble(lo) {
            Some(v) => v,
            None => {
                return None;
            },
        };
        out.push(hv * 16 + lv);
        i = i + 2;
    }
    proof {
        assert(out@ =~= spec_hex_decode(s@));
    }
    Some(out)
}

/// The value of one hex digit byte; `None` exactly on a non-digit.
pub fn hex_nibble(b: u8) -> (r: Option<u8>)
    ensures
        r is Some <==> is_hex_digit(b),
        r matches Some(v) ==> v == hex_val(b) && v < 16,
{
    if 48 <= b && b <= 57 {
        Some(b - 48)
    } else if 97 <= b && b <= 102 {
        Some(b - 87)
    } else if 65 <= b && b <= 70 {
        Some(b - 55)
    } else {
        None
    }
}

/// A hex field as the remote signer sends it, with an optional `0x` prefix
/// removed.
pub open spec fn spec_strip_0x(s: Seq<u8>) -> Seq<u8> {
    if s.len() >= 2 && s[0] == 48 && s[1] == 120 {
        s.skip(2)
    } else {
        s
    }
}

/// Removes a leading `0x`, if present.
pub fn strip_0x(s: &Vec<u8>) -> (r: Vec<u8>)
    ensures
        r@ == spec_strip_0x(s@),
{
    let mut out: Vec<u8> = Vec::new();
    let start: usize = if s.len() >= 2 && s[0] == 48 && s[1] == 120 {
        2
    } else {
        0
    };
    let mut i: usize = start;
    while i < s.len()
        invariant
            start <= i <= s@.len(),
            start == 0 || start == 2,
            out@ == s@.subrange(start as int, i as int),
        decreases s@.len() - i,
    {
        out.push(s[i]);
        i = i + 1;
    }
    proof {
        if start == 2 {
            assert(out@ =~= s@.skip(2));
        } else {
            assert(out@ =~= s@);
        }
    }
    out
}

/// A copy of a byte vector with the same contents.
pub fn clone_bytes(v: &Vec<u8>) -> (r: Vec<u8>)
    ensures
        r@ == v@,
{
    let mut out: Vec<u8> = Vec::new();
    let mut i: usize = 0;
    while i < v.len()
        invariant
            i <= v@.len(),
            out@ == v@.subrange(0, i as int),
        decreases v@.len() - i,
    {
        out.push(v[i]);
        i = i + 1;
    }
    proof {
        assert(out@ =~= v@);
    }
    out
}

/// A copy of a vector of indices with the same contents.
pub fn clone_u32s(v: &Vec<u32>) -> (r: Vec<u32>)
    ensures
        r@ == v@,
{
    let mut out: Vec<u32> = Vec::new();
    let mut i: usize = 0;
    while i < v.len()
        invariant
            i <= v@.len(),
            out@ == v@.subrange(0, i as int),
        decreases v@.len() - i,
    {
        out.push(v[i]);
        i = i + 1;
    }
    proof {
        assert(out@ =~= v@);
    }
    out
}

/// A copy of an optional byte vector, equal viewwise.
pub fn clone_opt_bytes(v: &Option<Vec<u8>>) -> (r: Option<Vec<u8>>)
    ensures
        r is Some <==> v is Some,
        v matches Some(a) ==> (r matches Some(b) && b@ == a@),
{
    match v {
        Some(a) => Some(clone_bytes(a)),
        None => None,
    }
}

/// A copy of an optional string, equal viewwise.
pub fn clone_opt_string(v: &Option<String>) -> (r: Option<String>)
    ensures
        r is Some <==> v is Some,
        v matches Some(a) ==> (r matches Some(b) && b@ == a@),
{
    match v {
        Some(a) => Some(a.clone()),
        None => None,
    }
}

/// Whether two byte vectors hold the same bytes.
pub fn bytes_equal(a: &Vec<u8>, b: &Vec<u8>) -> (r: bool)
    ensures
        r == (a@ == b@),
{
    if a.len() != b.len() {
        proof {
            assert(a@.len() != b@.len());
        }
        return false;
    }
    let mut i: usize = 0;
    while i < a.len()
        invariant
            i <= a@.len(),
            a@.len() == b@.len(),
            forall|j: int| 0 <= j < i ==> a@[j] == b@[j],
        decreases a@.len() - i,
    {
        if a[i] != b[i] {
            return false;
        }
        i = i + 1;
    }
    proof {
        assert(a@ =~= b@);
    }
    true
}

} // verus!
