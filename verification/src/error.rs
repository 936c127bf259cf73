//! The failure taxonomy shared by every operation of the crate.
use vstd::prelude::*;

verus! {

/// The identifier-valued fields of a payment request.
#[derive(Clone, Copy, Debug, PartialEq, Eq, Structural)]
pub enum Field {
    /// The nonce of a notarized payment.
    Nonce,
    /// The recipient puzzle hash of a payment.
    PuzzleHash,
}

impl Field {
    /// The name under which the field appears in messages.
    pub open spec fn spec_name(self) -> Seq<char> {
        match self {
            Field::Nonce => "nonce"@,
            Field::PuzzleHash => "puzzle_hash"@,
        }
    }

    /// The name under which the field appears in messages.
    pub fn name(self) -> (r: &'static str)
        ensures
            r@ == self.spec_name(),
    {
        match self {
            Field::Nonce => "nonce",
            Field::PuzzleHash => "puzzle_hash",
        }
    }
}

/// Why an operation failed. An operation either fully succeeds or fails with
/// exactly one of these.
#[derive(Clone, Debug)]
pub enum NativeError {
    /// The input bytes or string do not canonically decode.
    Encoding(String),
    /// An identifier buffer is not exactly 32 bytes long.
    Length(Field),
    /// Decoded objects violate the settlement structure.
    Structure(String),
    /// A puzzle reveal or the aggregated signature does not check out.
    CryptoVerification(String),
}

/// The classes of failure, without their diagnostic detail.
#[derive(Clone, Copy, Debug, PartialEq, Eq, Structural)]
pub enum ErrorKind {
    Encoding,
    Length,
    Structure,
    CryptoVerification,
}

impl NativeError {
    /// The class of this failure.
    pub open spec fn spec_kind(self) -> ErrorKind {
        match self {
            NativeError::Encoding(_) => ErrorKind::Encoding,
            NativeError::Length(_) => ErrorKind::Length,
            NativeError::Structure(_) => ErrorKind::Structure,
            NativeError::CryptoVerification(_) => ErrorKind::CryptoVerification,
        }
    }

    /// The text that `message` returns.
    pub open spec fn spec_message(self) -> Seq<char> {
        match self {
            NativeError::Encoding(m) => m@,
            NativeError::Length(Field::Nonce) => "nonce must be 32 bytes"@,
            NativeError::Length(Field::PuzzleHash) => "puzzle_hash must be 32 bytes"@,
            NativeError::Structure(m) => m@,
            NativeError::CryptoVerification(m) => m@,
        }
    }

    /// The class of this failure.
    pub fn kind(&self) -> (r: ErrorKind)
        ensures
            r == self.spec_kind(),
    {
        match self {
            NativeError::Encoding(_) => ErrorKind::Encoding,
            NativeError::Length(_) => ErrorKind::Length,
            NativeError::Structure(_) => ErrorKind::Structure,
            NativeError::CryptoVerification(_) => ErrorKind::CryptoVerification,
        }
    }

    /// The human-readable description of this failure.
    pub fn message(&self) -> (r: String)
        ensures
            r@ == self.spec_message(),
    {
        match self {
            NativeError::Encoding(m) => m.clone(),
            NativeError::Length(Field::Nonce) => "nonce must be 32 bytes".to_string(),
            NativeError::Length(Field::PuzzleHash) => "puzzle_hash must be 32 bytes".to_string(),
            NativeError::Structure(m) => m.clone(),
            NativeError::CryptoVerification(m) => m.clone(),
        }
    }
}

} // verus!
