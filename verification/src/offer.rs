//! Offers: validating the spend bundle of a posted offer, and assembling the
//! spend bundle that pairs a signed input bundle with the settlement spend
//! announcing the payments requested in return.
use vstd::prelude::*;
use chia_protocol::SpendBundle;
use chia_puzzle_types::Memos;
use chia_sdk_driver::{AssetInfo, DriverError, Offer, RequestedPayments, SpendContext};
use crate::bundle::{
    be_bytes_u32, coin_spends_encoding, decode_spend_bundle, driver_error_message,
    driver_error_text, encodable, encode_failure, encode_spend_bundle, spend_bundle_encoding,
    spend_bundle_model, streamable_outcome, streamable_spend_bundle, CoinSpendModel,
    SpendBundleModel,
};
use crate::error::{ErrorKind, NativeError};
use crate::payment::{
    first_length_error, length_error_by_contents, memo_free, notarized_views,
    parse_requested_payments, requested_group, requested_groups, requested_payment, Bytes32,
    NotarizedPayment, NotarizedPaymentView,
};
use crate::signature::{signature_authorizes, signature_failure, verify_signature};

verus! {

/// What an offer holds: the offered side's spend bundle, the notarized
/// payments requested in the native asset, and the number of token classes
/// (fungible tokens, collectibles, options) that payments are requested in.
pub ghost struct OfferModel {
    pub spend_bundle: SpendBundleModel,
    pub requested_native: Seq<NotarizedPaymentView>,
    pub token_classes: nat,
}

/// `chia_sdk_driver::Offer`, carried as an opaque value; what it holds is
/// spoken of through `offer_model`.
#[verifier::external_type_specification]
#[verifier::external_body]
pub struct ExOffer(Offer);

/// `chia_sdk_driver::SpendContext`, the working context of one call, carried
/// as an opaque value.
#[verifier::external_type_specification]
#[verifier::external_body]
pub struct ExSpendContext(SpendContext);

/// What an offer of the ledger's driver holds.
pub uninterp spec fn offer_model(offer: Offer) -> OfferModel;

/// The settlement coin spend that announces the given notarized payments in
/// the native asset.
pub uninterp spec fn settlement_spend(notarized: Seq<NotarizedPaymentView>) -> CoinSpendModel;

/// What a working context holds, in its allocator and its puzzle cache, beyond
/// what a fresh one holds; empty for a fresh one.
pub uninterp spec fn context_heap(ctx: SpendContext) -> Seq<u8>;

/// What reading a bundle as the offered side of an offer leaves in a fresh
/// working context.
pub uninterp spec fn input_heap(input: SpendBundleModel) -> Seq<u8>;

/// The text of the error with which the driver, on a fresh context, rejects
/// the bundle as the offered side of an offer; `None` where it accepts it:
/// every puzzle runs and the coins it offers can be read.
pub uninterp spec fn input_offer_failure(input: SpendBundleModel) -> Option<Seq<char>>;

/// The text of the error with which the driver, on the context in which it
/// accepted the input bundle, fails to build the settlement for the payments
/// requested in the native asset; `None` where it builds it.
pub uninterp spec fn settlement_failure(
    input: SpendBundleModel,
    notarized: Seq<NotarizedPaymentView>,
) -> Option<Seq<char>>;

/// The text of the error with which the driver, on a fresh context, fails to
/// read a complete offer back from the bundle (requested payments from its
/// settlement spends, offered coins from the others); `None` where it reads
/// it.
pub uninterp spec fn offer_read_failure(bundle: SpendBundleModel) -> Option<Seq<char>>;

/// The driver accepts the bundle as the offered side of an offer.
pub open spec fn input_offer_parses(input: SpendBundleModel) -> bool {
    input_offer_failure(input) is None
}

/// The driver can build the settlement for the requested payments.
pub open spec fn settlement_builds(
    input: SpendBundleModel,
    notarized: Seq<NotarizedPaymentView>,
) -> bool {
    settlement_failure(input, notarized) is None
}

/// The driver can read a complete offer back from the bundle.
pub open spec fn offer_reads_back(bundle: SpendBundleModel) -> bool {
    offer_read_failure(bundle) is None
}

/// The tree hash of a serialized program, if the bytes are one.
pub uninterp spec fn program_tree_hash(program: Seq<u8>) -> Option<Seq<u8>>;

/// The settlement spends for a request in the native asset: none for an empty
/// request, otherwise one spend that announces every notarized payment.
pub open spec fn settlement_spends(notarized: Seq<NotarizedPaymentView>) -> Seq<CoinSpendModel> {
    if notarized.len() == 0 {
        Seq::empty()
    } else {
        seq![settlement_spend(notarized)]
    }
}

/// The merged bundle: the input's coin spends first and in their order, the
/// settlement spends appended, under the input's aggregated signature (a
/// settlement spend needs no signature of its own).
pub open spec fn settled(
    input: SpendBundleModel,
    notarized: Seq<NotarizedPaymentView>,
) -> SpendBundleModel {
    SpendBundleModel {
        coin_spends: input.coin_spends + settlement_spends(notarized),
        aggregated_signature: input.aggregated_signature,
    }
}

/// A settlement spend consumes a coin of amount zero whose parent id is 32
/// zero bytes.
pub open spec fn is_settlement_coin(spend: CoinSpendModel) -> bool {
    spend.amount == 0 && spend.parent_coin_info == Seq::new(32, |i: int| 0u8)
}

/// `SpendContext::new`: a fresh working context for one call, which holds
/// nothing yet.
#[verifier::external_body]
fn new_spend_context() -> (ctx: SpendContext)
    ensures
        context_heap(ctx).len() == 0,
{
    SpendContext::new()
}

/// `Offer::from_input_spend_bundle`, with the notarized payments placed in the
/// native-asset slot of an otherwise empty request and with no asset
/// information. It parses the coin spends one by one, running their puzzles
/// under the dialect that the driver was built with, and may reject the
/// bundle; within one build and on a fresh context, whether it accepts depends
/// on the bundle alone and is named `input_offer_failure`, and what it leaves
/// in the context is named `input_heap`. A bundle without coin spends is
/// always accepted and leaves the context as it was. When it accepts, the
/// offer holds the bundle and the request as they were given.
#[verifier::external_body]
fn offer_from_input(
    ctx: &mut SpendContext,
    bundle: SpendBundle,
    notarized: &Vec<NotarizedPayment>,
) -> (r: Result<Offer, DriverError>)
    requires
        memo_free(notarized_views(notarized@)),
    ensures
        r matches Ok(offer) ==> offer_model(offer) == (OfferModel {
            spend_bundle: spend_bundle_model(bundle),
            requested_native: notarized_views(notarized@),
            token_classes: 0,
        }),
        context_heap(*old(ctx)).len() == 0 ==> match r {
            Ok(_) => input_offer_failure(spend_bundle_model(bundle)) is None,
            Err(e) => input_offer_failure(spend_bundle_model(bundle)) == Some(
                driver_error_message(e),
            ),
        },
        spend_bundle_model(bundle).coin_spends.len() == 0 ==> r is Ok && context_heap(*final(ctx))
            == context_heap(*old(ctx)),
        r is Ok && context_heap(*old(ctx)).len() == 0 ==> context_heap(*final(ctx)) == input_heap(
            spend_bundle_model(bundle),
        ),
{
    let mut requested = RequestedPayments::new();
    requested.xch = notarized.iter().map(|n| {
        let payments = n.payments.iter().map(|p| {
            let puzzle_hash = chia_protocol::Bytes32::new(p.puzzle_hash.bytes);
            chia_puzzle_types::offer::Payment::new(puzzle_hash, p.amount, Memos::None)
        }).collect();
        let nonce = chia_protocol::Bytes32::new(n.nonce.bytes);
        chia_puzzle_types::offer::NotarizedPayment::new(nonce, payments)
    }).collect();
    Offer::from_input_spend_bundle(ctx, bundle, requested, AssetInfo::new())
}

/// `Offer::to_spend_bundle`. For an offer that requests payments in the
/// native asset only, none of them with a memo, it appends one settlement
/// spend to the offer's bundle when the request is not empty and nothing
/// otherwise, and leaves the aggregated signature as it is. The settlement
/// spend depends on the requested payments alone and is named
/// `settlement_spend`; it is on a coin of amount zero with an all-zero parent
/// id. On a context that holds what reading the offer's bundle into a fresh
/// one leaves, whether it succeeds depends on the bundle and the request alone
/// and is named `settlement_failure`; with no coin spends and nothing
/// requested it only loads the settlement puzzle and succeeds.
#[verifier::external_body]
fn offer_to_spend_bundle(offer: Offer, ctx: &mut SpendContext) -> (r: Result<
    SpendBundle,
    DriverError,
>)
    ensures
        r matches Ok(bundle) ==> offer_model(offer).token_classes == 0 && memo_free(
            offer_model(offer).requested_native,
        ) ==> {
            &&& spend_bundle_model(bundle) == settled(
                offer_model(offer).spend_bundle,
                offer_model(offer).requested_native,
            )
            &&& offer_model(offer).requested_native.len() > 0 ==> is_settlement_coin(
                settlement_spend(offer_model(offer).requested_native),
            )
        },
        offer_model(offer).token_classes == 0 && memo_free(offer_model(offer).requested_native)
            && context_heap(*old(ctx)) == input_heap(offer_model(offer).spend_bundle) ==> {
            &&& match r {
                Ok(_) => settlement_failure(
                    offer_model(offer).spend_bundle,
                    offer_model(offer).requested_native,
                ) is None,
                Err(e) => settlement_failure(
                    offer_model(offer).spend_bundle,
                    offer_model(offer).requested_native,
                ) == Some(driver_error_message(e)),
            }
            &&& offer_model(offer).spend_bundle.coin_spends.len() == 0 && offer_model(
                offer,
            ).requested_native.len() == 0 ==> r is Ok
        },
{
    offer.to_spend_bundle(ctx)
}

/// `Offer::from_spend_bundle`: reads a complete offer back from its spend
/// bundle, parsing the settlement spends into requested payments and the other
/// spends into offered coins. It runs puzzles under the dialect that the
/// driver was built with; within one build and on a fresh context, whether it
/// accepts depends on the bundle alone and is named `offer_read_failure`.
#[verifier::external_body]
fn offer_from_spend_bundle(ctx: &mut SpendContext, bundle: &SpendBundle) -> (r: Result<
    Offer,
    DriverError,
>)
    ensures
        context_heap(*old(ctx)).len() == 0 ==> match r {
            Ok(_) => offer_read_failure(spend_bundle_model(*bundle)) is None,
            Err(e) => offer_read_failure(spend_bundle_model(*bundle)) == Some(
                driver_error_message(e),
            ),
        },
{
    Offer::from_spend_bundle(ctx, bundle)
}

/// The number of coin spends of a bundle of the ledger's representation.
#[verifier::external_body]
fn coin_spend_count(bundle: &SpendBundle) -> (n: usize)
    ensures
        n == spend_bundle_model(*bundle).coin_spends.len(),
{
    bundle.coin_spends.len()
}

/// The puzzle hash that the coin of the `index`-th coin spend declares.
#[verifier::external_body]
fn declared_puzzle_hash(bundle: &SpendBundle, index: usize) -> (r: Bytes32)
    requires
        index < spend_bundle_model(*bundle).coin_spends.len(),
    ensures
        r@ == spend_bundle_model(*bundle).coin_spends[index as int].puzzle_hash,
{
    Bytes32 { bytes: bundle.coin_spends[index].coin.puzzle_hash.to_bytes() }
}

/// `clvm_utils::tree_hash_from_bytes` on the puzzle reveal of the `index`-th
/// coin spend. The outcome depends on the reveal's bytes alone and is named
/// `program_tree_hash`.
#[verifier::external_body]
fn puzzle_reveal_tree_hash(bundle: &SpendBundle, index: usize) -> (r: Option<Bytes32>)
    requires
        index < spend_bundle_model(*bundle).coin_spends.len(),
    ensures
        match r {
            Some(hash) => program_tree_hash(
                spend_bundle_model(*bundle).coin_spends[index as int].puzzle_reveal,
            ) == Some(hash@),
            None => program_tree_hash(
                spend_bundle_model(*bundle).coin_spends[index as int].puzzle_reveal,
            ) is None,
        },
{
    let reveal: &[u8] = bundle.coin_spends[index].puzzle_reveal.as_ref();
    clvm_utils::tree_hash_from_bytes(reveal).ok().map(|hash| Bytes32 { bytes: hash.to_bytes() })
}

/// The spend's puzzle reveal is a program whose tree hash is the puzzle hash
/// that the spend's coin declares.
pub open spec fn reveal_matches(spend: CoinSpendModel) -> bool {
    program_tree_hash(spend.puzzle_reveal) == Some(spend.puzzle_hash)
}

/// Every coin spend of the bundle reveals the puzzle that its coin declares.
pub open spec fn puzzle_hashes_match(bundle: SpendBundleModel) -> bool {
    forall|i: int|
        0 <= i < bundle.coin_spends.len() ==> reveal_matches(#[trigger] bundle.coin_spends[i])
}

/// Whether every coin spend of the bundle reveals the puzzle that its coin
/// declares.
pub fn check_puzzle_hashes(bundle: &SpendBundle) -> (r: bool)
    ensures
        r == puzzle_hashes_match(spend_bundle_model(*bundle)),
{
    let count = coin_spend_count(bundle);
    let mut i: usize = 0;
    while i < count
        invariant
            i <= count,
            count == spend_bundle_model(*bundle).coin_spends.len(),
            forall|k: int|
                0 <= k < i ==> reveal_matches(#[trigger] spend_bundle_model(*bundle).coin_spends[k]),
        decreases count - i,
    {
        let declared = declared_puzzle_hash(bundle, i);
        let matches = match puzzle_reveal_tree_hash(bundle, i) {
            Some(hash) => hash.same_as(&declared),
            None => false,
        };
        if !matches {
            assert(!reveal_matches(spend_bundle_model(*bundle).coin_spends[i as int]));
            return false;
        }
        i += 1;
    }
    true
}

/// A bundle is a valid offer when every puzzle reveal hashes to its declared
/// puzzle hash, the aggregated signature covers what the coin spends require
/// under the network's additional data, and the settlement structure reads
/// back.
pub open spec fn valid_offer_bundle(bundle: SpendBundleModel, additional_data: Seq<u8>) -> bool {
    &&& puzzle_hashes_match(bundle)
    &&& signature_authorizes(bundle, additional_data)
    &&& offer_reads_back(bundle)
}

/// The kind of error that validation reports for a bundle that is no valid
/// offer: the checks run in order and the first that fails decides. A wrong
/// puzzle hash or a signature that does not cover the coin spends is a
/// verification error; a settlement structure that does not read back is a
/// structure error.
pub open spec fn validation_error_kind(
    bundle: SpendBundleModel,
    additional_data: Seq<u8>,
) -> ErrorKind {
    if !puzzle_hashes_match(bundle) || !signature_authorizes(bundle, additional_data) {
        ErrorKind::CryptoVerification
    } else {
        ErrorKind::Structure
    }
}

/// The message that validation reports for a bundle that is no valid offer:
/// that of the first check that fails.
pub open spec fn validation_error_message(
    bundle: SpendBundleModel,
    additional_data: Seq<u8>,
) -> Seq<char> {
    if !puzzle_hashes_match(bundle) {
        "puzzle reveal does not hash to the declared puzzle hash"@
    } else if !signature_authorizes(bundle, additional_data) {
        signature_failure(bundle, additional_data)
    } else {
        offer_read_failure(bundle)->Some_0
    }
}

/// Validates the spend bundle of an offer, in this order and stopping at the
/// first failure. Every puzzle reveal must hash to its declared puzzle hash,
/// and the aggregated signature must cover what the coin spends require under
/// the network's additional data: either failing is a verification error.
/// Then the settlement structure is read back, and a bundle that the ledger's
/// driver rejects fails with a structure error.
pub fn validate_spend_bundle(bundle: &SpendBundle, additional_data: &Bytes32) -> (r: Result<
    (),
    NativeError,
>)
    ensures
        r is Ok <==> valid_offer_bundle(spend_bundle_model(*bundle), additional_data@),
        r is Err ==> r->Err_0.spec_kind() == validation_error_kind(
            spend_bundle_model(*bundle),
            additional_data@,
        ),
        r is Err ==> r->Err_0.spec_message() == validation_error_message(
            spend_bundle_model(*bundle),
            additional_data@,
        ),
{
    if !check_puzzle_hashes(bundle) {
        return Err(
            NativeError::CryptoVerification(
                "puzzle reveal does not hash to the declared puzzle hash".to_string(),
            ),
        );
    }
    match verify_signature(bundle, additional_data) {
        Ok(()) => {},
        Err(e) => {
            return Err(e);
        },
    }
    let mut ctx = new_spend_context();
    structure_verdict(offer_from_spend_bundle(&mut ctx, bundle))
}

/// The verdict on the settlement structure, from what reading the offer back
/// gave: success when it could be read, a structure error otherwise.
pub fn structure_verdict(parsed: Result<Offer, DriverError>) -> (r: Result<(), NativeError>)
    ensures
        parsed is Ok ==> r is Ok,
        parsed is Err ==> r is Err && r->Err_0.spec_kind() == ErrorKind::Structure
            && r->Err_0.spec_message() == driver_error_message(parsed->Err_0),
{
    match parsed {
        Ok(_) => Ok(()),
        Err(e) => Err(NativeError::Structure(driver_error_text(&e))),
    }
}

/// Validates an offer, given what decoding the offer string gave: the spend
/// bundle, or the decoder's message. A string that did not decode fails with
/// an encoding error that carries the message; a bundle passes exactly when it
/// is a valid offer, and otherwise fails with the error of the first check
/// that it fails.
pub fn validate_offer(decoded: Result<SpendBundle, String>, additional_data: &Bytes32) -> (r:
    Result<(), NativeError>)
    ensures
        match decoded {
            Err(message) => r == Err::<(), NativeError>(NativeError::Encoding(message)),
            Ok(bundle) => {
                &&& r is Ok <==> valid_offer_bundle(spend_bundle_model(bundle), additional_data@)
                &&& r is Err ==> r->Err_0.spec_kind() == validation_error_kind(
                    spend_bundle_model(bundle),
                    additional_data@,
                )
                &&& r is Err ==> r->Err_0.spec_message() == validation_error_message(
                    spend_bundle_model(bundle),
                    additional_data@,
                )
            },
        },
{
    match decoded {
        Err(message) => Err(NativeError::Encoding(message)),
        Ok(bundle) => validate_spend_bundle(&bundle, additional_data),
    }
}

/// A request read from raw pairs carries no memo anywhere.
proof fn requested_groups_memo_free(raw: Seq<(Vec<u8>, Vec<(Vec<u8>, u64)>)>)
    ensures
        memo_free(requested_groups(raw)),
{
    assert forall|i: int, j: int|
        0 <= i < requested_groups(raw).len() && 0 <= j < requested_groups(raw)[i].payments.len()
        implies (#[trigger] requested_groups(raw)[i].payments[j]).memo is None by {
        assert(requested_groups(raw)[i] == requested_group(raw[i]));
        assert(requested_groups(raw)[i].payments[j] == requested_payment(raw[i].1@[j]));
    }
}

/// The message with which settling fails: the driver's, from reading the input
/// as the offered side or else from building the settlement.
pub open spec fn settling_failure(
    input: SpendBundleModel,
    notarized: Seq<NotarizedPaymentView>,
) -> Seq<char> {
    match input_offer_failure(input) {
        Some(text) => text,
        None => settlement_failure(input, notarized)->Some_0,
    }
}

/// Steps from a decoded input bundle and parsed payments to the merged
/// bundle. The ledger's driver decides whether the input reads as the offered
/// side and whether the settlement can be built; an input without coin spends
/// and an empty request always go through.
fn settle(bundle: SpendBundle, notarized: &Vec<NotarizedPayment>) -> (r: Result<
    SpendBundle,
    NativeError,
>)
    requires
        memo_free(notarized_views(notarized@)),
    ensures
        r is Ok <==> input_offer_parses(spend_bundle_model(bundle)) && settlement_builds(
            spend_bundle_model(bundle),
            notarized_views(notarized@),
        ),
        spend_bundle_model(bundle).coin_spends.len() == 0 && notarized@.len() == 0 ==> r is Ok,
        match r {
            Ok(merged) => {
                &&& spend_bundle_model(merged) == settled(
                    spend_bundle_model(bundle),
                    notarized_views(notarized@),
                )
                &&& notarized@.len() > 0 ==> is_settlement_coin(
                    settlement_spend(notarized_views(notarized@)),
                )
            },
            Err(e) => e.spec_kind() == ErrorKind::Structure && e.spec_message()
                == settling_failure(spend_bundle_model(bundle), notarized_views(notarized@)),
        },
{
    let mut ctx = new_spend_context();
    let offer = match offer_from_input(&mut ctx, bundle, notarized) {
        Ok(offer) => offer,
        Err(e) => {
            return Err(NativeError::Structure(driver_error_text(&e)));
        },
    };
    match offer_to_spend_bundle(offer, &mut ctx) {
        Ok(merged) => Ok(merged),
        Err(e) => Err(NativeError::Structure(driver_error_text(&e))),
    }
}

/// The bytes that assembling yields for an input buffer and a raw request,
/// where the buffer decodes, every identifier is 32 bytes long and the
/// settlement can be built.
pub open spec fn assembled_bytes(
    bytes: Seq<u8>,
    raw: Seq<(Vec<u8>, Vec<(Vec<u8>, u64)>)>,
) -> Seq<u8> {
    spend_bundle_encoding(settled(streamable_spend_bundle(bytes)->Some_0, requested_groups(raw)))
}

/// Whether assembling succeeds: the input bytes decode, every identifier of
/// the request is 32 bytes long, the driver accepts the input as the offered
/// side and can build the settlement, and the merged bundle can be encoded.
pub open spec fn assembles(bytes: Seq<u8>, raw: Seq<(Vec<u8>, Vec<(Vec<u8>, u64)>)>) -> bool {
    &&& streamable_spend_bundle(bytes) is Some
    &&& first_length_error(raw) is None
    &&& input_offer_parses(streamable_spend_bundle(bytes)->Some_0)
    &&& settlement_builds(streamable_spend_bundle(bytes)->Some_0, requested_groups(raw))
    &&& encodable(settled(streamable_spend_bundle(bytes)->Some_0, requested_groups(raw)))
}

/// The message with which assembling fails once the input bytes have decoded
/// and the request has been read: the driver's where it rejects the input or
/// cannot build the settlement, the codec's where the merged bundle cannot be
/// encoded.
pub open spec fn assembly_failure(
    input: SpendBundleModel,
    notarized: Seq<NotarizedPaymentView>,
) -> Seq<char> {
    if input_offer_parses(input) && settlement_builds(input, notarized) {
        encode_failure(settled(input, notarized))
    } else {
        settling_failure(input, notarized)
    }
}

/// Assembling is a function of what the inputs hold: two requests that ask for
/// the same payments on the same input bytes are rejected for the same
/// identifier or yield the same bytes.
pub proof fn assembly_is_deterministic(
    bytes: Seq<u8>,
    first: Seq<(Vec<u8>, Vec<(Vec<u8>, u64)>)>,
    second: Seq<(Vec<u8>, Vec<(Vec<u8>, u64)>)>,
)
    requires
        requested_groups(first) == requested_groups(second),
    ensures
        first_length_error(first) == first_length_error(second),
        assembles(bytes, first) == assembles(bytes, second),
        assembled_bytes(bytes, first) == assembled_bytes(bytes, second),
{
    length_error_by_contents(first, second);
}

/// With no coin spends in the input and nothing requested, no identifier can
/// be wrong, the merged bundle has no coin spends and keeps the input's
/// aggregated signature, and its bytes are a zero count followed by that
/// signature.
pub proof fn empty_assembly_is_empty(bytes: Seq<u8>, raw: Seq<(Vec<u8>, Vec<(Vec<u8>, u64)>)>)
    requires
        streamable_spend_bundle(bytes) is Some,
        streamable_spend_bundle(bytes)->Some_0.coin_spends.len() == 0,
        raw.len() == 0,
    ensures
        first_length_error(raw) is None,
        settled(streamable_spend_bundle(bytes)->Some_0, requested_groups(raw)).coin_spends.len()
            == 0,
        settled(
            streamable_spend_bundle(bytes)->Some_0,
            requested_groups(raw),
        ).aggregated_signature == streamable_spend_bundle(bytes)->Some_0.aggregated_signature,
        assembled_bytes(bytes, raw) == seq![0u8, 0u8, 0u8, 0u8] + streamable_spend_bundle(
            bytes,
        )->Some_0.aggregated_signature,
{
    let input = streamable_spend_bundle(bytes)->Some_0;
    let merged = settled(input, requested_groups(raw));
    assert(0u32 >> 24 == 0 && 0u32 >> 16 == 0 && 0u32 >> 8 == 0) by (bit_vector);
    assert(be_bytes_u32(0u32) =~= seq![0u8, 0u8, 0u8, 0u8]);
    assert(coin_spends_encoding(merged.coin_spends) =~= Seq::<u8>::empty());
    assert(spend_bundle_encoding(merged) =~= seq![0u8, 0u8, 0u8, 0u8]
        + input.aggregated_signature);
}

/// A request that is not empty adds exactly one coin spend, after the
/// input's own and in their order; an empty request adds none.
pub proof fn settlement_is_appended(input: SpendBundleModel, notarized: Seq<NotarizedPaymentView>)
    ensures
        settled(input, notarized).coin_spends.len() == input.coin_spends.len() + (if notarized.len()
            == 0 {
            0int
        } else {
            1int
        }),
        settled(input, notarized).coin_spends.subrange(0, input.coin_spends.len() as int)
            == input.coin_spends,
        notarized.len() > 0 ==> settled(input, notarized).coin_spends.last() == settlement_spend(
            notarized,
        ),
{
    assert(settled(input, notarized).coin_spends.subrange(0, input.coin_spends.len() as int)
        =~= input.coin_spends);
}

/// Assembles the spend bundle that completes an exchange: the caller's signed
/// input bundle, followed by the settlement spend that announces the payments
/// requested in the native asset, each without memo.
///
/// The input buffer is decoded first, then the identifiers are read front to
/// back; the first of these to fail decides the error. Past that point the
/// call fails with a structure error where the driver rejects the input or
/// cannot build the settlement, and otherwise returns exactly the encoding of
/// the merged bundle. An input without coin spends and an empty request always
/// succeed; an empty request gives back the input bytes.
pub fn from_input_spend_bundle_xch(
    spend_bundle_bytes: &[u8],
    requested_payments_xch: Vec<(Vec<u8>, Vec<(Vec<u8>, u64)>)>,
) -> (r: Result<Vec<u8>, NativeError>)
    ensures
        r is Ok <==> assembles(spend_bundle_bytes@, requested_payments_xch@),
        streamable_spend_bundle(spend_bundle_bytes@) is Some && streamable_spend_bundle(
            spend_bundle_bytes@,
        )->Some_0.coin_spends.len() == 0 && requested_payments_xch@.len() == 0 ==> r is Ok,
        r is Ok && requested_payments_xch@.len() == 0 ==> r->Ok_0@ == spend_bundle_bytes@,
        streamable_spend_bundle(spend_bundle_bytes@) is None ==> r is Err && r->Err_0.spec_kind()
            == ErrorKind::Encoding && r->Err_0.spec_message() == streamable_outcome(
            spend_bundle_bytes@,
        )->Err_0,
        streamable_spend_bundle(spend_bundle_bytes@) is Some ==> match first_length_error(
            requested_payments_xch@,
        ) {
            Some(field) => r == Err::<Vec<u8>, NativeError>(NativeError::Length(field)),
            None => match r {
                Ok(bytes) => {
                    &&& bytes@ == assembled_bytes(spend_bundle_bytes@, requested_payments_xch@)
                    &&& encodable(
                        settled(
                            streamable_spend_bundle(spend_bundle_bytes@)->Some_0,
                            requested_groups(requested_payments_xch@),
                        ),
                    )
                    &&& requested_payments_xch@.len() > 0 ==> is_settlement_coin(
                        settlement_spend(requested_groups(requested_payments_xch@)),
                    )
                },
                Err(e) => e.spec_kind() == ErrorKind::Structure && e.spec_message()
                    == assembly_failure(
                    streamable_spend_bundle(spend_bundle_bytes@)->Some_0,
                    requested_groups(requested_payments_xch@),
                ),
            },
        },
{
    let bundle = match decode_spend_bundle(spend_bundle_bytes) {
        Ok(bundle) => bundle,
        Err(e) => {
            return Err(e);
        },
    };
    let notarized = match parse_requested_payments(&requested_payments_xch) {
        Ok(notarized) => notarized,
        Err(e) => {
            return Err(e);
        },
    };
    proof {
        requested_groups_memo_free(requested_payments_xch@);
        if requested_payments_xch@.len() == 0 {
            assert(settled(spend_bundle_model(bundle), requested_groups(requested_payments_xch@))
                =~= spend_bundle_model(bundle));
        }
    }
    let merged = match settle(bundle, &notarized) {
        Ok(merged) => merged,
        Err(e) => {
            return Err(e);
        },
    };
    encode_spend_bundle(&merged)
}

} // verus!
