use duckdb_ext_tools::footer::encode_field;
use duckdb_ext_tools::footer::footer;
use duckdb_ext_tools::footer::start_signature;
use duckdb_ext_tools::footer::trim_field;

const SIGNATURE: [u8; 22] = [
    0, 147, 4, 16, 100, 117, 99, 107, 100, 98, 95, 115, 105, 103, 110, 97, 116, 117, 114, 101,
    128, 4,
];

#[test]
fn start_signature_bytes() {
    assert_eq!(start_signature(), SIGNATURE.to_vec());
}

#[test]
fn encode_field_pads_to_32_bytes() {
    let slot = encode_field(b"abc");
    assert_eq!(slot.len(), 32);
    assert_eq!(&slot[..3], b"abc");
    assert!(slot[3..].iter().all(|&b| b == 0));
}

#[test]
fn encode_field_empty_is_all_zero() {
    let slot = encode_field(b"");
    assert_eq!(slot, vec![0u8; 32]);
}

#[test]
fn encode_field_full_slot() {
    let content = [7u8; 32];
    let slot = encode_field(&content);
    assert_eq!(slot, content.to_vec());
}

#[test]
fn field_round_trip() {
    let slot = encode_field(b"v1.2.0");
    assert_eq!(trim_field(&slot), b"v1.2.0".to_vec());
    let empty = encode_field(b"");
    assert_eq!(trim_field(&empty), Vec::<u8>::new());
}

#[test]
fn footer_is_exactly_534_bytes() {
    let f = footer("C_STRUCT_UNSTABLE", "v1.2.0", "v1.4.2", "linux_amd64");
    assert_eq!(f.len(), 534);
    let g = footer("", "", "", "");
    assert_eq!(g.len(), 534);
}

#[test]
fn footer_layout_matches_format() {
    let f = footer("C_STRUCT_UNSTABLE", "v1.2.0", "v1.4.2", "osx_arm64");
    assert_eq!(&f[..22], &SIGNATURE[..]);
    assert!(f[22..118].iter().all(|&b| b == 0));
    assert_eq!(&f[118..150], &encode_field(b"C_STRUCT_UNSTABLE")[..]);
    assert_eq!(&f[150..182], &encode_field(b"v1.2.0")[..]);
    assert_eq!(&f[182..214], &encode_field(b"v1.4.2")[..]);
    assert_eq!(&f[214..246], &encode_field(b"osx_arm64")[..]);
    assert_eq!(f[246], b'4');
    assert!(f[247..278].iter().all(|&b| b == 0));
    assert!(f[278..534].iter().all(|&b| b == 0));
}
