use chia_bls::{sign, SecretKey, Signature};
use chia_protocol::{Bytes32, Coin, CoinSpend, Program, SpendBundle};
use chia_sdk_signer::{AggSigConstants, RequiredSignature};
use greenfloor_native::error::ErrorKind;
use greenfloor_native::offer::validate_spend_bundle;
use greenfloor_native::payment::Bytes32 as Identifier;
use greenfloor_native::signature::{check_signature, signature_verdict, verify_signature};

fn secret_key() -> SecretKey {
    SecretKey::from_seed(&[5u8; 32])
}

// The program `(q . ((50 public_key "hello")))`: it asks for one signature
// over the message, the coin id and the network's additional data.
fn signed_puzzle() -> Vec<u8> {
    let mut puzzle = vec![0xff, 0x01, 0xff, 0xff, 0x32, 0xff, 0xb0];
    puzzle.extend_from_slice(&secret_key().public_key().to_bytes());
    puzzle.extend_from_slice(&[0xff, 0x85]);
    puzzle.extend_from_slice(b"hello");
    puzzle.extend_from_slice(&[0x80, 0x80]);
    puzzle
}

fn signed_spend() -> CoinSpend {
    let puzzle = signed_puzzle();
    let puzzle_hash = Bytes32::new(clvm_utils::tree_hash_from_bytes(&puzzle).unwrap().to_bytes());
    let coin = Coin::new(Bytes32::new([0xaa; 32]), puzzle_hash, 1000);
    CoinSpend::new(coin, Program::from(puzzle), Program::from(vec![0x80u8]))
}

fn required_under(additional_data: [u8; 32]) -> Vec<RequiredSignature> {
    let mut allocator = clvmr::Allocator::new();
    let constants = AggSigConstants::new(Bytes32::new(additional_data));
    RequiredSignature::from_coin_spends(&mut allocator, &[signed_spend()], &constants).unwrap()
}

fn signed_bundle(additional_data: [u8; 32]) -> SpendBundle {
    let required = required_under(additional_data);
    assert_eq!(required.len(), 1);
    let message = match &required[0] {
        RequiredSignature::Bls(bls) => bls.message(),
        RequiredSignature::Secp(_) => panic!("a signature of the aggregated scheme is required"),
    };
    assert_eq!(&message[..5], b"hello");
    assert_eq!(message.len(), 5 + 32 + 32);
    SpendBundle::new(vec![signed_spend()], sign(&secret_key(), message))
}

#[test]
fn signature_over_the_required_message_verifies() {
    let bundle = signed_bundle([7u8; 32]);
    assert!(check_signature(&bundle, &required_under([7u8; 32])));
    assert!(verify_signature(&bundle, &Identifier { bytes: [7u8; 32] }).is_ok());
    assert!(validate_spend_bundle(&bundle, &Identifier { bytes: [7u8; 32] }).is_ok());
}

#[test]
fn signature_for_another_network_does_not_verify() {
    let bundle = signed_bundle([7u8; 32]);
    assert!(!check_signature(&bundle, &required_under([8u8; 32])));
    let error = verify_signature(&bundle, &Identifier { bytes: [8u8; 32] }).unwrap_err();
    assert_eq!(error.kind(), ErrorKind::CryptoVerification);
    let error = validate_spend_bundle(&bundle, &Identifier { bytes: [8u8; 32] }).unwrap_err();
    assert_eq!(error.kind(), ErrorKind::CryptoVerification);
    assert_eq!(error.message(), "aggregated signature does not cover the coin spends");
}

#[test]
fn missing_signature_does_not_verify() {
    let bundle = SpendBundle::new(vec![signed_spend()], Signature::default());
    let error = verify_signature(&bundle, &Identifier { bytes: [7u8; 32] }).unwrap_err();
    assert_eq!(error.kind(), ErrorKind::CryptoVerification);
}

#[test]
fn nothing_required_is_covered_by_the_identity_signature_only() {
    let empty = SpendBundle::new(Vec::new(), Signature::default());
    assert!(check_signature(&empty, &Vec::new()));
    assert!(signature_verdict(&empty, Ok(Vec::new())).is_ok());
    let signed = SpendBundle::new(Vec::new(), sign(&secret_key(), b"hello"));
    assert!(!check_signature(&signed, &Vec::new()));
    let error = signature_verdict(&signed, Ok(Vec::new())).unwrap_err();
    assert_eq!(error.kind(), ErrorKind::CryptoVerification);
}

#[test]
fn puzzle_that_cannot_run_fails_verification() {
    let puzzle = vec![0xffu8, 0x08, 0x80];
    let puzzle_hash = Bytes32::new(clvm_utils::tree_hash_from_bytes(&puzzle).unwrap().to_bytes());
    let coin = Coin::new(Bytes32::new([0xaa; 32]), puzzle_hash, 1);
    let spend = CoinSpend::new(coin, Program::from(puzzle), Program::from(vec![0x80u8]));
    let bundle = SpendBundle::new(vec![spend], Signature::default());
    let error = validate_spend_bundle(&bundle, &Identifier { bytes: [7u8; 32] }).unwrap_err();
    assert_eq!(error.kind(), ErrorKind::CryptoVerification);
    assert!(!error.message().is_empty());
}

#[test]
fn flipped_bit_in_count_coin_or_signature_is_never_accepted() {
    let network = Identifier { bytes: [7u8; 32] };
    let bytes = greenfloor_native::bundle::encode_spend_bundle(&signed_bundle([7u8; 32])).unwrap();
    let accepted = |candidate: &[u8]| match greenfloor_native::bundle::decode_spend_bundle(candidate)
    {
        Ok(bundle) => validate_spend_bundle(&bundle, &network).is_ok(),
        Err(_) => false,
    };
    assert!(accepted(&bytes));
    let head = 4 + 32 + 32 + 8;
    let tail = bytes.len() - 96;
    for index in (0..head).chain(tail..bytes.len()) {
        let mut corrupted = bytes.clone();
        corrupted[index] ^= 1u8 << (index % 8);
        assert!(!accepted(&corrupted), "byte {index}");
    }
}

#[test]
fn bundle_without_coin_spends_passes_with_the_identity_signature_only() {
    let network = Identifier { bytes: [7u8; 32] };
    let empty = SpendBundle::new(Vec::new(), Signature::default());
    assert!(verify_signature(&empty, &network).is_ok());
    let signed = SpendBundle::new(Vec::new(), sign(&secret_key(), b"hello"));
    let error = verify_signature(&signed, &network).unwrap_err();
    assert_eq!(error.kind(), ErrorKind::CryptoVerification);
    assert_eq!(error.message(), "aggregated signature does not cover the coin spends");
}

#[test]
fn bad_signature_comes_before_an_unreadable_settlement() {
    let network = Identifier { bytes: [7u8; 32] };
    let mut solution = vec![0xffu8, 0xff, 0x01, 0xff, 0xff, 0xa0];
    solution.extend_from_slice(&[0x22u8; 32]);
    solution.extend_from_slice(&[0xff, 0x01, 0x80, 0x80, 0x80]);
    let settlement = CoinSpend::new(
        Coin::new(Bytes32::new([0u8; 32]), Bytes32::new(chia_puzzles::SETTLEMENT_PAYMENT_HASH), 0),
        Program::from(chia_puzzles::SETTLEMENT_PAYMENT.to_vec()),
        Program::from(solution),
    );
    let good = signed_bundle([7u8; 32]);
    let unreadable = SpendBundle::new(
        vec![signed_spend(), settlement.clone()],
        good.aggregated_signature.clone(),
    );
    let error = validate_spend_bundle(&unreadable, &network).unwrap_err();
    assert_eq!(error.kind(), ErrorKind::Structure);
    let both = SpendBundle::new(vec![signed_spend(), settlement], Signature::default());
    let error = validate_spend_bundle(&both, &network).unwrap_err();
    assert_eq!(error.kind(), ErrorKind::CryptoVerification);
}

#[test]
fn flipped_bit_in_a_puzzle_reveal_fails_the_hash_check() {
    let network = Identifier { bytes: [7u8; 32] };
    let bytes = greenfloor_native::bundle::encode_spend_bundle(&signed_bundle([7u8; 32])).unwrap();
    let start = 4 + 32 + 32 + 8;
    let end = start + signed_puzzle().len();
    assert_eq!(&bytes[start..end], &signed_puzzle()[..]);
    let mut decoded = 0;
    for index in start..end {
        for bit in 0..8 {
            let mut corrupted = bytes.clone();
            corrupted[index] ^= 1u8 << bit;
            if let Ok(bundle) = greenfloor_native::bundle::decode_spend_bundle(&corrupted) {
                decoded += 1;
                assert!(
                    !greenfloor_native::offer::check_puzzle_hashes(&bundle),
                    "byte {index}, bit {bit}"
                );
                let error = validate_spend_bundle(&bundle, &network).unwrap_err();
                assert_eq!(error.kind(), ErrorKind::CryptoVerification);
                assert_eq!(
                    error.message(),
                    "puzzle reveal does not hash to the declared puzzle hash"
                );
            }
        }
    }
    assert!(decoded > 0);
}
