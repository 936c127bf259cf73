//! Spend bundles: their mathematical model, their canonical byte encoding,
//! and the codec entry points.
use vstd::prelude::*;
use chia_traits::Streamable;
use crate::error::{ErrorKind, NativeError};

verus! {

/// One unit of ledger-state transition: the coin it consumes, the program that
/// guards the coin, and the arguments handed to that program.
pub ghost struct CoinSpendModel {
    pub parent_coin_info: Seq<u8>,
    pub puzzle_hash: Seq<u8>,
    pub amount: u64,
    pub puzzle_reveal: Seq<u8>,
    pub solution: Seq<u8>,
}

/// What a spend bundle holds: its coin spends in order, and the compressed
/// bytes of its aggregated signature.
pub ghost struct SpendBundleModel {
    pub coin_spends: Seq<CoinSpendModel>,
    pub aggregated_signature: Seq<u8>,
}

/// The eight bytes of `x`, most significant first.
pub open spec fn be_bytes_u64(x: u64) -> Seq<u8> {
    seq![
        (x >> 56) as u8,
        (x >> 48) as u8,
        (x >> 40) as u8,
        (x >> 32) as u8,
        (x >> 24) as u8,
        (x >> 16) as u8,
        (x >> 8) as u8,
        x as u8,
    ]
}

/// The four bytes of `x`, most significant first.
pub open spec fn be_bytes_u32(x: u32) -> Seq<u8> {
    seq![(x >> 24) as u8, (x >> 16) as u8, (x >> 8) as u8, x as u8]
}

/// The canonical bytes of one coin spend: parent id, puzzle hash, amount,
/// then the two serialized programs as they stand.
pub open spec fn coin_spend_encoding(spend: CoinSpendModel) -> Seq<u8> {
    spend.parent_coin_info + spend.puzzle_hash + be_bytes_u64(spend.amount) + spend.puzzle_reveal
        + spend.solution
}

/// The canonical bytes of a run of coin spends, one after the other.
pub open spec fn coin_spends_encoding(spends: Seq<CoinSpendModel>) -> Seq<u8>
    decreases spends.len(),
{
    if spends.len() == 0 {
        Seq::empty()
    } else {
        coin_spends_encoding(spends.drop_last()) + coin_spend_encoding(spends.last())
    }
}

/// Whether a bundle can be encoded: its number of coin spends fits the
/// four-byte count that leads the encoding.
pub open spec fn encodable(bundle: SpendBundleModel) -> bool {
    bundle.coin_spends.len() <= u32::MAX
}

/// The canonical bytes of a spend bundle: the number of coin spends, the coin
/// spends, and the aggregated signature.
pub open spec fn spend_bundle_encoding(bundle: SpendBundleModel) -> Seq<u8> {
    be_bytes_u32(bundle.coin_spends.len() as u32) + coin_spends_encoding(bundle.coin_spends)
        + bundle.aggregated_signature
}

/// `chia_protocol::SpendBundle`, carried as an opaque value; what it holds is
/// spoken of through `spend_bundle_model`.
#[verifier::external_type_specification]
#[verifier::external_body]
pub struct ExSpendBundle(chia_protocol::SpendBundle);

/// The error of chia-traits' streamable codec, carried as an opaque value.
#[verifier::external_type_specification]
#[verifier::external_body]
pub struct ExStreamableError(chia_traits::chia_error::Error);

/// `chia_sdk_driver::DriverError`, carried as an opaque value.
#[verifier::external_type_specification]
#[verifier::external_body]
pub struct ExDriverError(chia_sdk_driver::DriverError);

/// What a spend bundle of the ledger's own representation holds.
pub uninterp spec fn spend_bundle_model(bundle: chia_protocol::SpendBundle) -> SpendBundleModel;

/// What decoding a byte buffer gives: the spend bundle that it canonically
/// decodes to, or the text of the codec's error.
pub uninterp spec fn streamable_outcome(bytes: Seq<u8>) -> Result<SpendBundleModel, Seq<char>>;

/// The spend bundle that a byte buffer canonically decodes to, if any.
pub open spec fn streamable_spend_bundle(bytes: Seq<u8>) -> Option<SpendBundleModel> {
    match streamable_outcome(bytes) {
        Ok(bundle) => Some(bundle),
        Err(_) => None,
    }
}

/// The `Display` text of an error of the streamable codec.
pub uninterp spec fn streamable_error_message(error: chia_traits::chia_error::Error) -> Seq<char>;

/// The `Display` text of a driver error.
pub uninterp spec fn driver_error_message(error: chia_sdk_driver::DriverError) -> Seq<char>;

/// The text of the error with which the codec refuses a bundle that it cannot
/// encode.
pub uninterp spec fn encode_failure(bundle: SpendBundleModel) -> Seq<char>;

/// `SpendBundle::from_bytes` of chia-protocol's streamable codec. Whether it
/// succeeds, and what the bundle then holds, depends on the bytes alone; the
/// contract gives that outcome the name `streamable_outcome`. The codec
/// reads the count, each field and the signature exactly as `to_bytes` writes
/// them, takes each program's bytes as they stand, accepts only the canonical
/// form of a signature and no trailing bytes: a bundle it hands out encodes
/// back to the bytes it was read from.
#[verifier::external_body]
fn streamable_decode(bytes: &[u8]) -> (r: Result<
    chia_protocol::SpendBundle,
    chia_traits::chia_error::Error,
>)
    ensures
        match r {
            Ok(bundle) => {
                &&& streamable_outcome(bytes@) == Ok::<SpendBundleModel, Seq<char>>(
                    spend_bundle_model(bundle),
                )
                &&& encodable(spend_bundle_model(bundle))
                &&& spend_bundle_encoding(spend_bundle_model(bundle)) == bytes@
            },
            Err(e) => streamable_outcome(bytes@) == Err::<SpendBundleModel, Seq<char>>(
                streamable_error_message(e),
            ),
        },
{
    chia_protocol::SpendBundle::from_bytes(bytes)
}

/// `SpendBundle::to_bytes` of chia-protocol's streamable codec. It writes the
/// count of coin spends in four bytes, each coin spend field by field, and the
/// 96 signature bytes; it fails only when the count does not fit four bytes,
/// with an error whose text is named `encode_failure`.
#[verifier::external_body]
fn streamable_encode(bundle: &chia_protocol::SpendBundle) -> (r: Result<
    Vec<u8>,
    chia_traits::chia_error::Error,
>)
    ensures
        r is Ok <==> encodable(spend_bundle_model(*bundle)),
        r is Ok ==> r->Ok_0@ == spend_bundle_encoding(spend_bundle_model(*bundle)),
        r matches Err(e) ==> streamable_error_message(e) == encode_failure(
            spend_bundle_model(*bundle),
        ),
{
    bundle.to_bytes()
}

/// `to_string` on a streamable codec error: its `Display` text.
#[verifier::external_body]
fn streamable_error_text(error: &chia_traits::chia_error::Error) -> (r: String)
    ensures
        r@ == streamable_error_message(*error),
{
    error.to_string()
}

/// `to_string` on a driver error: its `Display` text.
#[verifier::external_body]
pub(crate) fn driver_error_text(error: &chia_sdk_driver::DriverError) -> (r: String)
    ensures
        r@ == driver_error_message(*error),
{
    error.to_string()
}

/// Decodes a spend bundle from its canonical bytes. Decoding either fully
/// succeeds or fails with an encoding error that carries the codec's text. A
/// decoded bundle encodes back to the bytes it came from, and decoding its
/// encoding gives the same bundle again.
pub fn decode_spend_bundle(bytes: &[u8]) -> (r: Result<chia_protocol::SpendBundle, NativeError>)
    ensures
        match r {
            Ok(bundle) => {
                &&& streamable_spend_bundle(bytes@) == Some(spend_bundle_model(bundle))
                &&& encodable(spend_bundle_model(bundle))
                &&& spend_bundle_encoding(spend_bundle_model(bundle)) == bytes@
                &&& streamable_spend_bundle(spend_bundle_encoding(spend_bundle_model(bundle)))
                    == Some(spend_bundle_model(bundle))
            },
            Err(e) => {
                &&& streamable_outcome(bytes@) is Err
                &&& e.spec_kind() == ErrorKind::Encoding
                &&& e.spec_message() == streamable_outcome(bytes@)->Err_0
            },
        },
{
    match streamable_decode(bytes) {
        Ok(bundle) => Ok(bundle),
        Err(e) => Err(NativeError::Encoding(streamable_error_text(&e))),
    }
}

/// Encodes a spend bundle into its canonical bytes. Fails with a structure
/// error exactly when the bundle holds more coin spends than the encoding can
/// count.
pub fn encode_spend_bundle(bundle: &chia_protocol::SpendBundle) -> (r: Result<
    Vec<u8>,
    NativeError,
>)
    ensures
        match r {
            Ok(bytes) => encodable(spend_bundle_model(*bundle)) && bytes@ == spend_bundle_encoding(
                spend_bundle_model(*bundle),
            ),
            Err(e) => {
                &&& !encodable(spend_bundle_model(*bundle))
                &&& e.spec_kind() == ErrorKind::Structure
                &&& e.spec_message() == encode_failure(spend_bundle_model(*bundle))
            },
        },
{
    match streamable_encode(bundle) {
        Ok(bytes) => Ok(bytes),
        Err(e) => Err(NativeError::Structure(streamable_error_text(&e))),
    }
}

} // verus!
