use chia_bls::Signature;
use chia_protocol::{Bytes32, Coin, CoinSpend, Program, SpendBundle};
use greenfloor_native::bundle::{decode_spend_bundle, encode_spend_bundle};
use greenfloor_native::error::ErrorKind;

fn one_spend_bundle(amount: u64) -> SpendBundle {
    let coin = Coin::new(Bytes32::new([0xaa; 32]), Bytes32::new([0xbb; 32]), amount);
    let spend = CoinSpend::new(coin, Program::from(vec![0x01u8]), Program::from(vec![0x80u8]));
    SpendBundle::new(vec![spend], Signature::default())
}

#[test]
fn empty_bundle_encodes_to_count_and_signature() {
    let bundle = SpendBundle::new(Vec::new(), Signature::default());
    let bytes = encode_spend_bundle(&bundle).unwrap();
    let mut expected = vec![0u8, 0, 0, 0];
    expected.extend_from_slice(&Signature::default().to_bytes());
    assert_eq!(bytes, expected);
    assert_eq!(bytes.len(), 100);
    assert_eq!(bytes[4], 0xc0);
}

#[test]
fn one_spend_encodes_field_by_field() {
    let bytes = encode_spend_bundle(&one_spend_bundle(0x0102_0304_0506_0708)).unwrap();
    let mut expected = vec![0u8, 0, 0, 1];
    expected.extend_from_slice(&[0xaa; 32]);
    expected.extend_from_slice(&[0xbb; 32]);
    expected.extend_from_slice(&[1, 2, 3, 4, 5, 6, 7, 8]);
    expected.push(0x01);
    expected.push(0x80);
    expected.extend_from_slice(&Signature::default().to_bytes());
    assert_eq!(bytes, expected);
}

#[test]
fn decoding_inverts_encoding() {
    for bundle in [
        SpendBundle::new(Vec::new(), Signature::default()),
        one_spend_bundle(1000),
        one_spend_bundle(u64::MAX),
    ] {
        let bytes = encode_spend_bundle(&bundle).unwrap();
        let decoded = decode_spend_bundle(&bytes).unwrap();
        assert_eq!(decoded, bundle);
        assert_eq!(encode_spend_bundle(&decoded).unwrap(), bytes);
    }
}

#[test]
fn truncated_bytes_do_not_decode() {
    let bytes = encode_spend_bundle(&one_spend_bundle(1000)).unwrap();
    for len in [0usize, 3, 4, 50, bytes.len() - 1] {
        let error = decode_spend_bundle(&bytes[..len]).unwrap_err();
        assert_eq!(error.kind(), ErrorKind::Encoding);
        assert!(!error.message().is_empty());
    }
}

#[test]
fn trailing_bytes_do_not_decode() {
    let mut bytes = encode_spend_bundle(&one_spend_bundle(1000)).unwrap();
    bytes.push(0);
    let error = decode_spend_bundle(&bytes).unwrap_err();
    assert_eq!(error.kind(), ErrorKind::Encoding);
}
