use greenfloor_native::error::{ErrorKind, Field, NativeError};
use greenfloor_native::payment::{parse_bytes32, parse_payments, parse_requested_payments, Bytes32};

fn length_field(error: &NativeError) -> Option<Field> {
    match error {
        NativeError::Length(field) => Some(*field),
        _ => None,
    }
}

#[test]
fn identifier_of_32_bytes_is_kept_byte_for_byte() {
    let raw: Vec<u8> = (0u8..32).collect();
    let id = parse_bytes32(&raw, Field::Nonce).unwrap();
    assert_eq!(id.bytes.to_vec(), raw);
}

#[test]
fn identifier_of_other_lengths_is_rejected() {
    for len in [0usize, 1, 31, 33, 64] {
        let raw = vec![7u8; len];
        let error = parse_bytes32(&raw, Field::PuzzleHash).unwrap_err();
        assert_eq!(error.kind(), ErrorKind::Length);
        assert_eq!(length_field(&error), Some(Field::PuzzleHash));
    }
}

#[test]
fn length_messages_name_the_field() {
    let nonce = parse_bytes32(&[1u8; 31], Field::Nonce).unwrap_err();
    assert_eq!(nonce.message(), "nonce must be 32 bytes");
    let puzzle_hash = parse_bytes32(&[1u8; 33], Field::PuzzleHash).unwrap_err();
    assert_eq!(puzzle_hash.message(), "puzzle_hash must be 32 bytes");
    assert_eq!(Field::Nonce.name(), "nonce");
    assert_eq!(Field::PuzzleHash.name(), "puzzle_hash");
}

#[test]
fn messages_of_the_other_errors_are_carried() {
    let encoding = NativeError::Encoding("bad bytes".to_string());
    assert_eq!(encoding.kind(), ErrorKind::Encoding);
    assert_eq!(encoding.message(), "bad bytes");
    let structure = NativeError::Structure("bad structure".to_string());
    assert_eq!(structure.kind(), ErrorKind::Structure);
    assert_eq!(structure.message(), "bad structure");
    let crypto = NativeError::CryptoVerification("bad hash".to_string());
    assert_eq!(crypto.kind(), ErrorKind::CryptoVerification);
    assert_eq!(crypto.message(), "bad hash");
}

#[test]
fn identifiers_compare_by_their_bytes() {
    let a = Bytes32 { bytes: [3u8; 32] };
    let b = Bytes32 { bytes: [3u8; 32] };
    let mut other = [3u8; 32];
    other[31] = 4;
    let c = Bytes32 { bytes: other };
    assert!(a.same_as(&b));
    assert!(!a.same_as(&c));
}

#[test]
fn payments_carry_no_memo_and_keep_their_order() {
    let raw = vec![(vec![0x22u8; 32], 500u64), (vec![0x33u8; 32], 0u64)];
    let payments = parse_payments(&raw).unwrap();
    assert_eq!(payments.len(), 2);
    assert_eq!(payments[0].puzzle_hash.bytes, [0x22u8; 32]);
    assert_eq!(payments[0].amount, 500);
    assert!(payments[0].memo.is_none());
    assert_eq!(payments[1].puzzle_hash.bytes, [0x33u8; 32]);
    assert_eq!(payments[1].amount, 0);
    assert!(payments[1].memo.is_none());
}

#[test]
fn short_puzzle_hash_is_rejected() {
    let raw = vec![(vec![0x22u8; 32], 1u64), (vec![0x22u8; 31], 2u64)];
    let error = parse_payments(&raw).unwrap_err();
    assert_eq!(length_field(&error), Some(Field::PuzzleHash));
}

#[test]
fn empty_request_parses_to_nothing() {
    let parsed = parse_requested_payments(&Vec::new()).unwrap();
    assert!(parsed.is_empty());
}

#[test]
fn repeated_nonces_are_both_kept() {
    let raw = vec![
        (vec![0x11u8; 32], vec![(vec![0x22u8; 32], 1u64)]),
        (vec![0x11u8; 32], vec![(vec![0x33u8; 32], 2u64)]),
    ];
    let parsed = parse_requested_payments(&raw).unwrap();
    assert_eq!(parsed.len(), 2);
    assert_eq!(parsed[0].nonce.bytes, [0x11u8; 32]);
    assert_eq!(parsed[1].nonce.bytes, [0x11u8; 32]);
    assert_eq!(parsed[0].payments[0].amount, 1);
    assert_eq!(parsed[1].payments[0].amount, 2);
    assert_eq!(parsed[1].payments[0].puzzle_hash.bytes, [0x33u8; 32]);
}

#[test]
fn first_wrong_length_decides_the_field() {
    let nonce_first = vec![
        (vec![0x11u8; 32], vec![(vec![0x22u8; 32], 1u64)]),
        (vec![0x11u8; 30], vec![(vec![0x22u8; 5], 1u64)]),
    ];
    let error = parse_requested_payments(&nonce_first).unwrap_err();
    assert_eq!(length_field(&error), Some(Field::Nonce));

    let puzzle_hash_first = vec![
        (vec![0x11u8; 32], vec![(vec![0x22u8; 33], 1u64)]),
        (vec![0x11u8; 30], Vec::new()),
    ];
    let error = parse_requested_payments(&puzzle_hash_first).unwrap_err();
    assert_eq!(length_field(&error), Some(Field::PuzzleHash));
}
