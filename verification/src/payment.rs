//! Identifiers, payments and notarized payments, and how they are built from
//! the raw buffers a caller hands in.
use vstd::prelude::*;
use crate::error::{Field, NativeError};

verus! {

/// A 32-byte identifier: a coin id, puzzle hash, asset id or payment nonce.
#[derive(Clone, Copy, Debug)]
pub struct Bytes32 {
    pub bytes: [u8; 32],
}

impl View for Bytes32 {
    type V = Seq<u8>;

    open spec fn view(&self) -> Seq<u8> {
        self.bytes@
    }
}

impl Bytes32 {
    /// Whether two identifiers hold the same bytes.
    pub fn same_as(&self, other: &Bytes32) -> (r: bool)
        ensures
            r == (self@ == other@),
    {
        let mut i: usize = 0;
        while i < 32
            invariant
                i <= 32,
                forall|k: int| 0 <= k < i ==> self.bytes@[k] == other.bytes@[k],
            decreases 32 - i,
        {
            if self.bytes[i] != other.bytes[i] {
                return false;
            }
            i += 1;
        }
        assert(self.bytes@ =~= other.bytes@);
        true
    }
}

/// A payment of `amount` units to `puzzle_hash`, with an optional memo.
#[derive(Clone, Debug)]
pub struct Payment {
    pub puzzle_hash: Bytes32,
    pub amount: u64,
    pub memo: Option<Vec<u8>>,
}

/// The mathematical value of a [`Payment`].
pub ghost struct PaymentView {
    pub puzzle_hash: Seq<u8>,
    pub amount: u64,
    pub memo: Option<Seq<u8>>,
}

impl View for Payment {
    type V = PaymentView;

    open spec fn view(&self) -> PaymentView {
        PaymentView {
            puzzle_hash: self.puzzle_hash@,
            amount: self.amount,
            memo: match self.memo {
                Some(m) => Some(m@),
                None => None,
            },
        }
    }
}

/// Payments grouped under a caller-chosen nonce.
#[derive(Clone, Debug)]
pub struct NotarizedPayment {
    pub nonce: Bytes32,
    pub payments: Vec<Payment>,
}

/// The mathematical value of a [`NotarizedPayment`].
pub ghost struct NotarizedPaymentView {
    pub nonce: Seq<u8>,
    pub payments: Seq<PaymentView>,
}

/// The values of a sequence of payments, in order.
pub open spec fn payment_views(payments: Seq<Payment>) -> Seq<PaymentView> {
    payments.map_values(|p: Payment| p@)
}

impl View for NotarizedPayment {
    type V = NotarizedPaymentView;

    open spec fn view(&self) -> NotarizedPaymentView {
        NotarizedPaymentView { nonce: self.nonce@, payments: payment_views(self.payments@) }
    }
}

/// The values of a sequence of notarized payments, in order.
pub open spec fn notarized_views(notarized: Seq<NotarizedPayment>) -> Seq<NotarizedPaymentView> {
    notarized.map_values(|n: NotarizedPayment| n@)
}

/// No payment of any group carries a memo.
pub open spec fn memo_free(notarized: Seq<NotarizedPaymentView>) -> bool {
    forall|i: int, j: int|
        0 <= i < notarized.len() && 0 <= j < notarized[i].payments.len()
            ==> (#[trigger] notarized[i].payments[j]).memo is None
}

/// The payment that a raw `(puzzle_hash, amount)` pair asks for: no memo.
pub open spec fn requested_payment(raw: (Vec<u8>, u64)) -> PaymentView {
    PaymentView { puzzle_hash: raw.0@, amount: raw.1, memo: None }
}

/// The payments that a raw list of pairs asks for, in order.
pub open spec fn requested_payments(raw: Seq<(Vec<u8>, u64)>) -> Seq<PaymentView> {
    raw.map_values(|p: (Vec<u8>, u64)| requested_payment(p))
}

/// The notarized payment that a raw `(nonce, payments)` pair asks for.
pub open spec fn requested_group(raw: (Vec<u8>, Vec<(Vec<u8>, u64)>)) -> NotarizedPaymentView {
    NotarizedPaymentView { nonce: raw.0@, payments: requested_payments(raw.1@) }
}

/// The notarized payments that a raw request asks for: one per entry, in the
/// order given, whether or not nonces repeat.
pub open spec fn requested_groups(raw: Seq<(Vec<u8>, Vec<(Vec<u8>, u64)>)>) -> Seq<
    NotarizedPaymentView,
> {
    raw.map_values(|g: (Vec<u8>, Vec<(Vec<u8>, u64)>)| requested_group(g))
}

/// Every puzzle hash of the list is exactly 32 bytes long.
pub open spec fn payments_well_sized(raw: Seq<(Vec<u8>, u64)>) -> bool {
    forall|j: int| 0 <= j < raw.len() ==> (#[trigger] raw[j]).0@.len() == 32
}

/// Every nonce and every puzzle hash of the request is exactly 32 bytes long.
pub open spec fn request_well_sized(raw: Seq<(Vec<u8>, Vec<(Vec<u8>, u64)>)>) -> bool {
    forall|i: int|
        0 <= i < raw.len() ==> (#[trigger] raw[i]).0@.len() == 32 && payments_well_sized(
            raw[i].1@,
        )
}

/// The field that is first found to have the wrong length when the request is
/// read front to back, each nonce before the puzzle hashes of its group; `None`
/// when every identifier is exactly 32 bytes long.
pub open spec fn first_length_error(raw: Seq<(Vec<u8>, Vec<(Vec<u8>, u64)>)>) -> Option<Field>
    decreases raw.len(),
{
    if raw.len() == 0 {
        None
    } else if raw[0].0@.len() != 32 {
        Some(Field::Nonce)
    } else if !payments_well_sized(raw[0].1@) {
        Some(Field::PuzzleHash)
    } else {
        first_length_error(raw.skip(1))
    }
}

/// A request is free of length errors exactly when each of its nonces and
/// puzzle hashes is 32 bytes long.
pub proof fn length_error_iff_wrong_length(raw: Seq<(Vec<u8>, Vec<(Vec<u8>, u64)>)>)
    ensures
        first_length_error(raw) is None <==> request_well_sized(raw),
    decreases raw.len(),
{
    if raw.len() > 0 {
        let rest = raw.skip(1);
        length_error_iff_wrong_length(rest);
        if request_well_sized(raw) {
            assert(raw[0].0@.len() == 32 && payments_well_sized(raw[0].1@));
            assert forall|i: int| 0 <= i < rest.len() implies (#[trigger] rest[i]).0@.len() == 32
                && payments_well_sized(rest[i].1@) by {
                assert(rest[i] == raw[i + 1]);
            }
        }
        if first_length_error(raw) is None {
            assert forall|i: int| 0 <= i < raw.len() implies (#[trigger] raw[i]).0@.len() == 32
                && payments_well_sized(raw[i].1@) by {
                if i > 0 {
                    assert(raw[i] == rest[i - 1]);
                }
            }
        }
    }
}

/// Entries are never merged: each entry of a request yields its own notarized
/// payment at its own position, also where two entries carry the same nonce.
pub proof fn repeated_nonces_are_kept(raw: Seq<(Vec<u8>, Vec<(Vec<u8>, u64)>)>, i: int, j: int)
    requires
        0 <= i < raw.len(),
        0 <= j < raw.len(),
        i != j,
        raw[i].0@ == raw[j].0@,
    ensures
        requested_groups(raw).len() == raw.len(),
        requested_groups(raw)[i] == requested_group(raw[i]),
        requested_groups(raw)[j] == requested_group(raw[j]),
        requested_groups(raw)[i].nonce == requested_groups(raw)[j].nonce,
{
}

/// Whether a list of raw payments is well sized depends only on the payments
/// it asks for.
proof fn well_sized_by_contents(a: Seq<(Vec<u8>, u64)>, b: Seq<(Vec<u8>, u64)>)
    requires
        requested_payments(a) == requested_payments(b),
    ensures
        payments_well_sized(a) == payments_well_sized(b),
{
    assert(a.len() == requested_payments(a).len());
    assert(b.len() == requested_payments(b).len());
    assert forall|j: int| 0 <= j < a.len() implies (#[trigger] a[j]).0@ == b[j].0@ by {
        assert(requested_payments(a)[j] == requested_payment(a[j]));
        assert(requested_payments(b)[j] == requested_payment(b[j]));
    }
    if payments_well_sized(a) {
        assert forall|j: int| 0 <= j < b.len() implies (#[trigger] b[j]).0@.len() == 32 by {
            assert(a[j].0@ == b[j].0@);
        }
    }
    if payments_well_sized(b) {
        assert forall|j: int| 0 <= j < a.len() implies (#[trigger] a[j]).0@.len() == 32 by {
            assert(a[j].0@ == b[j].0@);
        }
    }
}

/// Which identifier is first found to have the wrong length depends only on
/// what the request asks for, not on the buffers that carry it.
pub proof fn length_error_by_contents(
    a: Seq<(Vec<u8>, Vec<(Vec<u8>, u64)>)>,
    b: Seq<(Vec<u8>, Vec<(Vec<u8>, u64)>)>,
)
    requires
        requested_groups(a) == requested_groups(b),
    ensures
        first_length_error(a) == first_length_error(b),
    decreases a.len(),
{
    assert(a.len() == requested_groups(a).len());
    assert(b.len() == requested_groups(b).len());
    if a.len() > 0 {
        assert(requested_groups(a)[0] == requested_group(a[0]));
        assert(requested_groups(b)[0] == requested_group(b[0]));
        well_sized_by_contents(a[0].1@, b[0].1@);
        assert(requested_groups(a.skip(1)) =~= requested_groups(a).skip(1));
        assert(requested_groups(b.skip(1)) =~= requested_groups(b).skip(1));
        length_error_by_contents(a.skip(1), b.skip(1));
    }
}

/// Reads an identifier from a buffer, which must hold exactly 32 bytes;
/// `field` says what the buffer was meant to be.
pub fn parse_bytes32(raw: &[u8], field: Field) -> (r: Result<Bytes32, NativeError>)
    ensures
        raw@.len() == 32 ==> r is Ok && r->Ok_0@ == raw@,
        raw@.len() != 32 ==> r == Err::<Bytes32, NativeError>(NativeError::Length(field)),
{
    if raw.len() != 32 {
        return Err(NativeError::Length(field));
    }
    let mut bytes = [0u8; 32];
    let mut i: usize = 0;
    while i < 32
        invariant
            i <= 32,
            raw@.len() == 32,
            forall|k: int| 0 <= k < i ==> bytes@[k] == raw@[k],
        decreases 32 - i,
    {
        bytes[i] = raw[i];
        i += 1;
    }
    assert(bytes@ =~= raw@);
    Ok(Bytes32 { bytes })
}

/// Turns raw `(puzzle_hash, amount)` pairs into payments without memo, or
/// fails on the first puzzle hash that is not 32 bytes long.
pub fn parse_payments(raw: &Vec<(Vec<u8>, u64)>) -> (r: Result<Vec<Payment>, NativeError>)
    ensures
        payments_well_sized(raw@) ==> r is Ok && payment_views(r->Ok_0@) == requested_payments(
            raw@,
        ),
        !payments_well_sized(raw@) ==> r == Err::<Vec<Payment>, NativeError>(
            NativeError::Length(Field::PuzzleHash),
        ),
{
    let mut payments: Vec<Payment> = Vec::with_capacity(raw.len());
    let mut j: usize = 0;
    while j < raw.len()
        invariant
            j <= raw.len(),
            payments@.len() == j,
            forall|k: int| 0 <= k < j ==> (#[trigger] raw@[k]).0@.len() == 32,
            forall|k: int| 0 <= k < j ==> (#[trigger] payments@[k])@ == requested_payment(raw@[k]),
        decreases raw.len() - j,
    {
        let pair = &raw[j];
        let puzzle_hash = match parse_bytes32(pair.0.as_slice(), Field::PuzzleHash) {
            Ok(id) => id,
            Err(e) => {
                return Err(e);
            },
        };
        payments.push(Payment { puzzle_hash, amount: pair.1, memo: None });
        j += 1;
    }
    assert(payment_views(payments@) =~= requested_payments(raw@));
    Ok(payments)
}

/// Turns a raw request into notarized payments, one per entry and in the
/// order given, or fails on the first identifier that is not 32 bytes long.
pub fn parse_requested_payments(raw: &Vec<(Vec<u8>, Vec<(Vec<u8>, u64)>)>) -> (r: Result<
    Vec<NotarizedPayment>,
    NativeError,
>)
    ensures
        match first_length_error(raw@) {
            None => r is Ok && notarized_views(r->Ok_0@) == requested_groups(raw@),
            Some(field) => r == Err::<Vec<NotarizedPayment>, NativeError>(
                NativeError::Length(field),
            ),
        },
{
    let mut notarized: Vec<NotarizedPayment> = Vec::new();
    let mut i: usize = 0;
    assert(raw@.skip(0) =~= raw@);
    while i < raw.len()
        invariant
            i <= raw.len(),
            notarized@.len() == i,
            first_length_error(raw@) == first_length_error(raw@.skip(i as int)),
            forall|k: int| 0 <= k < i ==> (#[trigger] notarized@[k])@ == requested_group(raw@[k]),
        decreases raw.len() - i,
    {
        let entry = &raw[i];
        proof {
            assert(raw@.skip(i as int)[0] == raw@[i as int]);
            assert(raw@.skip(i as int).skip(1) =~= raw@.skip(i + 1));
        }
        let nonce = match parse_bytes32(entry.0.as_slice(), Field::Nonce) {
            Ok(id) => id,
            Err(e) => {
                return Err(e);
            },
        };
        let payments = match parse_payments(&entry.1) {
            Ok(p) => p,
            Err(e) => {
                return Err(e);
            },
        };
        notarized.push(NotarizedPayment { nonce, payments });
        i += 1;
    }
    assert(raw@.skip(i as int).len() == 0);
    assert(notarized_views(notarized@) =~= requested_groups(raw@));
    Ok(notarized)
}

} // verus!
