//! The aggregated signature of a spend bundle, checked against the
//! signatures that its coin spends require.
use vstd::prelude::*;
use chia_bls::PublicKey;
use chia_protocol::SpendBundle;
use chia_sdk_signer::{AggSigConstants, RequiredSignature, SignerError};
use crate::bundle::{spend_bundle_model, SpendBundleModel};
use crate::error::{ErrorKind, NativeError};
use crate::payment::Bytes32;

verus! {

/// `chia_bls::PublicKey`, carried as an opaque value.
#[verifier::external_type_specification]
#[verifier::external_body]
pub struct ExPublicKey(PublicKey);

/// `chia_sdk_signer::RequiredSignature`, carried as an opaque value.
#[verifier::external_type_specification]
#[verifier::external_body]
pub struct ExRequiredSignature(RequiredSignature);

/// `chia_sdk_signer::SignerError`, carried as an opaque value.
#[verifier::external_type_specification]
#[verifier::external_body]
pub struct ExSignerError(SignerError);

/// The compressed bytes of a public key.
pub uninterp spec fn public_key_model(key: PublicKey) -> Seq<u8>;

/// What a required signature asks for: the public key and the full message
/// where it is one of the aggregated scheme, `None` where it is of another
/// scheme and so no part of the aggregated signature.
pub uninterp spec fn requirement_model(required: RequiredSignature) -> Option<(Seq<u8>, Seq<u8>)>;

/// Whether an aggregated signature verifies against the given pairs of
/// public key and message.
pub uninterp spec fn aggregate_verifies(signature: Seq<u8>, pairs: Seq<(Seq<u8>, Seq<u8>)>) -> bool;

/// The models of key and message pairs, in order.
pub open spec fn pair_models(pairs: Seq<(PublicKey, Vec<u8>)>) -> Seq<(Seq<u8>, Seq<u8>)> {
    pairs.map_values(|pair: (PublicKey, Vec<u8>)| (public_key_model(pair.0), pair.1@))
}

/// What each of a run of required signatures asks for, in order.
pub open spec fn requirement_models(required: Seq<RequiredSignature>) -> Seq<
    Option<(Seq<u8>, Seq<u8>)>,
> {
    required.map_values(|r: RequiredSignature| requirement_model(r))
}

/// The pairs that the aggregated signature has to cover: those of the
/// required signatures that are of the aggregated scheme, in order.
pub open spec fn aggregated_pairs(required: Seq<Option<(Seq<u8>, Seq<u8>)>>) -> Seq<
    (Seq<u8>, Seq<u8>),
>
    decreases required.len(),
{
    if required.len() == 0 {
        Seq::empty()
    } else {
        let rest = aggregated_pairs(required.drop_last());
        match required.last() {
            Some(pair) => rest.push(pair),
            None => rest,
        }
    }
}

/// The bundle's aggregated signature verifies against everything that the
/// required signatures ask of it.
pub open spec fn signature_covers(
    bundle: SpendBundleModel,
    required: Seq<RequiredSignature>,
) -> bool {
    aggregate_verifies(bundle.aggregated_signature, aggregated_pairs(requirement_models(required)))
}

/// What the coin spends of a bundle require to be signed under the network's
/// additional data, one entry per required signature and in order; or, where
/// the requirements cannot be derived, the text of the signer's error.
pub uninterp spec fn required_of(bundle: SpendBundleModel, additional_data: Seq<u8>) -> Result<
    Seq<Option<(Seq<u8>, Seq<u8>)>>,
    Seq<char>,
>;

/// The `Display` text of a signer error.
pub uninterp spec fn signer_error_message(error: SignerError) -> Seq<char>;

/// The requirements of the bundle's coin spends can be derived, and the
/// bundle's aggregated signature covers them.
pub open spec fn signature_authorizes(bundle: SpendBundleModel, additional_data: Seq<u8>) -> bool {
    match required_of(bundle, additional_data) {
        Ok(required) => aggregate_verifies(
            bundle.aggregated_signature,
            aggregated_pairs(required),
        ),
        Err(_) => false,
    }
}

/// The message with which a signature is refused: the signer's text where the
/// requirements cannot be derived, a fixed text where the signature does not
/// cover them.
pub open spec fn signature_failure(bundle: SpendBundleModel, additional_data: Seq<u8>) -> Seq<
    char,
> {
    match required_of(bundle, additional_data) {
        Ok(_) => "aggregated signature does not cover the coin spends"@,
        Err(text) => text,
    }
}

/// `RequiredSignature::from_coin_spends` of chia-sdk-signer, on a fresh
/// allocator and with the signature domains derived from the network's
/// additional data. It runs the puzzle of each coin spend in turn, under the
/// dialect that the signer was built with, and collects what they require;
/// within one build the outcome depends on the bundle and the additional data
/// alone and is named `required_of`. For a bundle without coin spends it
/// succeeds and requires nothing.
#[verifier::external_body]
fn required_signatures(bundle: &SpendBundle, additional_data: &Bytes32) -> (r: Result<
    Vec<RequiredSignature>,
    SignerError,
>)
    ensures
        match r {
            Ok(required) => required_of(spend_bundle_model(*bundle), additional_data@) == Ok::<
                Seq<Option<(Seq<u8>, Seq<u8>)>>,
                Seq<char>,
            >(requirement_models(required@)),
            Err(e) => required_of(spend_bundle_model(*bundle), additional_data@) == Err::<
                Seq<Option<(Seq<u8>, Seq<u8>)>>,
                Seq<char>,
            >(signer_error_message(e)),
        },
        spend_bundle_model(*bundle).coin_spends.len() == 0 ==> r is Ok && r->Ok_0@.len() == 0,
{
    let mut allocator = clvmr::Allocator::new();
    let constants = AggSigConstants::new(chia_protocol::Bytes32::new(additional_data.bytes));
    RequiredSignature::from_coin_spends(&mut allocator, &bundle.coin_spends, &constants)
}

/// Tells the two kinds of required signature apart; for one of the aggregated
/// scheme it hands out the public key and `RequiredBlsSignature::message`.
#[verifier::external_body]
fn aggregated_requirement(required: &RequiredSignature) -> (r: Option<(PublicKey, Vec<u8>)>)
    ensures
        match r {
            Some(pair) => requirement_model(*required) == Some(
                (public_key_model(pair.0), pair.1@),
            ),
            None => requirement_model(*required) is None,
        },
{
    match required {
        RequiredSignature::Bls(bls) => Some((bls.public_key, bls.message())),
        RequiredSignature::Secp(_) => None,
    }
}

/// `chia_bls::aggregate_verify` on the bundle's aggregated signature. The
/// verdict depends on the signature, the keys and the messages alone and is
/// named `aggregate_verifies`.
#[verifier::external_body]
fn aggregate_verify(bundle: &SpendBundle, pairs: &Vec<(PublicKey, Vec<u8>)>) -> (r: bool)
    ensures
        r == aggregate_verifies(
            spend_bundle_model(*bundle).aggregated_signature,
            pair_models(pairs@),
        ),
{
    let data = pairs.iter().map(|pair| (&pair.0, pair.1.as_slice()));
    chia_bls::aggregate_verify(&bundle.aggregated_signature, data)
}

/// `to_string` on a signer error: its `Display` text.
#[verifier::external_body]
fn signer_error_text(error: &SignerError) -> (r: String)
    ensures
        r@ == signer_error_message(*error),
{
    error.to_string()
}

/// Whether the bundle's aggregated signature covers the required signatures:
/// those of the aggregated scheme are collected in order and verified
/// together; those of other schemes are left out.
pub fn check_signature(bundle: &SpendBundle, required: &Vec<RequiredSignature>) -> (r: bool)
    ensures
        r == signature_covers(spend_bundle_model(*bundle), required@),
{
    let mut pairs: Vec<(PublicKey, Vec<u8>)> = Vec::new();
    let mut i: usize = 0;
    while i < required.len()
        invariant
            i <= required.len(),
            pair_models(pairs@) == aggregated_pairs(requirement_models(required@.take(i as int))),
        decreases required.len() - i,
    {
        proof {
            let next = requirement_models(required@.take(i + 1));
            assert(next.drop_last() =~= requirement_models(required@.take(i as int)));
            assert(next.last() == requirement_model(required@[i as int]));
        }
        let ghost before = pairs@;
        match aggregated_requirement(&required[i]) {
            Some(pair) => {
                pairs.push(pair);
                assert(pair_models(pairs@) =~= pair_models(before).push(
                    (public_key_model(pair.0), pair.1@),
                ));
            },
            None => {},
        }
        i += 1;
    }
    assert(required@.take(i as int) =~= required@);
    aggregate_verify(bundle, &pairs)
}

/// The verdict on the aggregated signature, from what deriving the required
/// signatures gave: success exactly when they could be derived and the
/// signature covers them, a verification error otherwise.
pub fn signature_verdict(
    bundle: &SpendBundle,
    required: Result<Vec<RequiredSignature>, SignerError>,
) -> (r: Result<(), NativeError>)
    ensures
        r is Ok <==> required is Ok && signature_covers(
            spend_bundle_model(*bundle),
            required->Ok_0@,
        ),
        r is Err ==> r->Err_0.spec_kind() == ErrorKind::CryptoVerification,
        r is Err ==> r->Err_0.spec_message() == (match required {
            Ok(_) => "aggregated signature does not cover the coin spends"@,
            Err(e) => signer_error_message(e),
        }),
{
    match required {
        Err(e) => Err(NativeError::CryptoVerification(signer_error_text(&e))),
        Ok(required) => {
            if check_signature(bundle, &required) {
                Ok(())
            } else {
                Err(
                    NativeError::CryptoVerification(
                        "aggregated signature does not cover the coin spends".to_string(),
                    ),
                )
            }
        },
    }
}

/// Checks the bundle's aggregated signature against the signatures that its
/// coin spends require under the network's additional data. Succeeds exactly
/// when the requirements can be derived and the signature covers them, and
/// fails with a verification error otherwise. A bundle without coin spends
/// requires nothing, and passes exactly when its signature verifies against no
/// pair.
pub fn verify_signature(bundle: &SpendBundle, additional_data: &Bytes32) -> (r: Result<
    (),
    NativeError,
>)
    ensures
        r is Ok <==> signature_authorizes(spend_bundle_model(*bundle), additional_data@),
        r is Err ==> r->Err_0.spec_kind() == ErrorKind::CryptoVerification,
        r is Err ==> r->Err_0.spec_message() == signature_failure(
            spend_bundle_model(*bundle),
            additional_data@,
        ),
        spend_bundle_model(*bundle).coin_spends.len() == 0 ==> (r is Ok <==> aggregate_verifies(
            spend_bundle_model(*bundle).aggregated_signature,
            Seq::empty(),
        )),
{
    let required = required_signatures(bundle, additional_data);
    proof {
        if required is Ok && required->Ok_0@.len() == 0 {
            assert(aggregated_pairs(requirement_models(required->Ok_0@)) =~= Seq::empty());
        }
    }
    signature_verdict(bundle, required)
}

} // verus!
