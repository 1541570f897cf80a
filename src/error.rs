use vstd::prelude::*;

verus! {

/// Why a settings update or a verification request was turned down.
#[derive(Clone, Copy, Debug, PartialEq, Eq, Structural)]
pub enum ErrorCode {
    /// Reserved for conditions that no other variant describes.
    CustomError,
    /// The part before the separator is not a decimal `u64`.
    TimestampParsingFailed,
    /// The part after the separator is not a base58 public key.
    PubkeyParsingFailed,
    /// The message does not hold exactly one `_` separator.
    WrongMessageSplitLength,
    /// The key named in the message is not the registered authority.
    WrongSigner,
    /// The signature does not verify against the registered authority.
    CouldntVerifySignature,
    /// The timestamp lies outside the accepted window.
    TimestampOutOfWindow,
    /// The timestamp is at or after the upper end of the window.
    TimestampTooBig,
    /// The timestamp is at or before the lower end of the window.
    TimestampTooSmall,
}

} // verus!
