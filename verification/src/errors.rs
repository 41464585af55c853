use vstd::prelude::*;

verus! {

/// Failure kinds of the keypair library. Every failure is reported as a
/// value at the operation boundary; no verified operation panics.
#[derive(Clone, Copy, Debug, PartialEq, Eq, Structural)]
pub enum KeyError {
    /// The requested vanity prefix is longer than the supported bound.
    PrefixTooLong,
    /// Text is not valid base58.
    DecodeError,
    /// Decoded bytes are not exactly the raw key-material size.
    InvalidKeyLength,
    /// Bytes decode but do not form a valid keypair under the signature
    /// scheme.
    MalformedKeyMaterial,
    /// No private-key field is present in the record.
    MissingKey,
    /// The record could not be written durably.
    PersistenceError,
    /// The attempt budget ran out before any candidate matched the prefix.
    AttemptsExhausted,
}

} // verus!
