use statechain_client::hexutil::{
    bytes_equal, clone_bytes, hex_decode, hex_encode_bytes, hex_encode_string, strip_0x,
};
use statechain_client::key_derivation::parse_derivation_path;

#[test]
fn hex_encode_known_values() {
    assert_eq!(hex_encode_string(&vec![]), "");
    assert_eq!(hex_encode_string(&vec![0x00]), "00");
    assert_eq!(hex_encode_string(&vec![0xde, 0xad, 0xbe, 0xef]), "deadbeef");
    assert_eq!(hex_encode_string(&vec![0x0f, 0xf0]), "0ff0");
}

#[test]
fn hex_encode_matches_hex_crate() {
    let data: Vec<u8> = (0u8..=255).collect();
    assert_eq!(hex_encode_string(&data), hex::encode(&data));
}

#[test]
fn hex_decode_round_trip() {
    let data: Vec<u8> = (0u8..=255).collect();
    let enc = hex_encode_bytes(&data);
    let dec = hex_decode(&enc).expect("well-formed hex");
    assert_eq!(dec, data);
}

#[test]
fn hex_decode_accepts_upper_case() {
    let dec = hex_decode(&b"DEADbeef".to_vec()).expect("mixed case is fine");
    assert_eq!(dec, vec![0xde, 0xad, 0xbe, 0xef]);
}

#[test]
fn hex_decode_rejects_odd_length() {
    assert!(hex_decode(&b"abc".to_vec()).is_none());
}

#[test]
fn hex_decode_rejects_non_digits() {
    assert!(hex_decode(&b"zz".to_vec()).is_none());
    assert!(hex_decode(&b"0g".to_vec()).is_none());
}

#[test]
fn strip_0x_prefix() {
    assert_eq!(strip_0x(&b"0xabcd".to_vec()), b"abcd".to_vec());
    assert_eq!(strip_0x(&b"abcd".to_vec()), b"abcd".to_vec());
    assert_eq!(strip_0x(&b"0x".to_vec()), Vec::<u8>::new());
    assert_eq!(strip_0x(&b"".to_vec()), Vec::<u8>::new());
}

#[test]
fn byte_helpers() {
    let a = vec![1u8, 2, 3];
    assert_eq!(clone_bytes(&a), a);
    assert!(bytes_equal(&a, &vec![1, 2, 3]));
    assert!(!bytes_equal(&a, &vec![1, 2, 4]));
    assert!(!bytes_equal(&a, &vec![1, 2]));
}

#[test]
fn parse_path_hardened_segments() {
    let p = parse_derivation_path("m/86h/0h/0h").expect("valid path");
    assert_eq!(p, vec![0x80000000 + 86, 0x80000000, 0x80000000]);
}

#[test]
fn parse_path_apostrophe_marker() {
    let p = parse_derivation_path("m/86'/0'/0'").expect("valid path");
    assert_eq!(p, vec![0x80000000 + 86, 0x80000000, 0x80000000]);
}

#[test]
fn parse_path_mixed_segments() {
    let p = parse_derivation_path("m/89h/0/1").expect("valid path");
    assert_eq!(p, vec![0x80000000 + 89, 0, 1]);
}

#[test]
fn parse_path_bare_master() {
    let p = parse_derivation_path("m").expect("the master path is empty");
    assert_eq!(p, Vec::<u32>::new());
}

#[test]
fn parse_path_boundary_values() {
    assert_eq!(parse_derivation_path("m/2147483647"), Some(vec![0x7fffffff]));
    assert_eq!(
        parse_derivation_path("m/2147483647h"),
        Some(vec![0xffffffff])
    );
    assert!(parse_derivation_path("m/2147483648").is_none());
    assert!(parse_derivation_path("m/4294967296").is_none());
}

#[test]
fn parse_path_rejects_malformed() {
    assert!(parse_derivation_path("").is_none());
    assert!(parse_derivation_path("86h/0h").is_none());
    assert!(parse_derivation_path("m/").is_none());
    assert!(parse_derivation_path("m//0").is_none());
    assert!(parse_derivation_path("m/h").is_none());
    assert!(parse_derivation_path("m/12x").is_none());
    assert!(parse_derivation_path("m/12h3").is_none());
    assert!(parse_derivation_path("n/0").is_none());
}
