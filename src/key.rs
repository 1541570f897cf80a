use vstd::prelude::*;
use crate::error::ErrorCode;
use std::str::FromStr;

verus! {

/// A 32-byte Ed25519 public key, held as its raw bytes.
#[derive(Clone, Copy, Debug)]
pub struct PublicKey {
    pub bytes: [u8; 32],
}

impl View for PublicKey {
    type V = Seq<u8>;

    open spec fn view(&self) -> Seq<u8> {
        self.bytes@
    }
}

impl PublicKey {
    /// Whether two keys hold the same bytes.
    pub fn same_as(&self, other: &PublicKey) -> (r: bool)
        ensures
            r == (self@ == other@),
    {
        let mut i: usize = 0;
        while i < 32
            invariant
                0 <= i <= 32,
                self@.len() == 32,
                other@.len() == 32,
                forall|j: int| 0 <= j < i ==> self@[j] == other@[j],
            decreases 32 - i,
        {
            if self.bytes[i] != other.bytes[i] {
                return false;
            }
            i = i + 1;
        }
        proof {
            assert(self@ =~= other@);
        }
        true
    }
}

/// The key that the platform's textual form `text` denotes (base58 of the
/// 32 bytes, the text read as lossy UTF-8), or `None` where `text` is not such
/// a form.
pub uninterp spec fn base58_key(text: Seq<u8>) -> Option<Seq<u8>>;

/// Relies on `Pubkey::from_str` of anchor-lang (solana-address's `Address`):
/// decodes at most 44 base58 characters into exactly 32 bytes, and fails
/// otherwise.
#[verifier::external_body]
fn decode_base58_key(text: &[u8]) -> (r: Option<PublicKey>)
    ensures
        match r {
            Some(k) => base58_key(text@) == Some(k@),
            None => base58_key(text@) is None,
        },
{
    let s = String::from_utf8_lossy(text);
    anchor_lang::prelude::Pubkey::from_str(&s).ok().map(|k| PublicKey { bytes: k.to_bytes() })
}

/// Reads a public key from its textual form.
pub fn pubkey_from_string(pubkey: &[u8]) -> (r: Result<PublicKey, ErrorCode>)
    ensures
        match r {
            Ok(k) => base58_key(pubkey@) == Some(k@),
            Err(e) => e == ErrorCode::PubkeyParsingFailed && base58_key(pubkey@) is None,
        },
{
    match decode_base58_key(pubkey) {
        Some(k) => Ok(k),
        None => Err(ErrorCode::PubkeyParsingFailed),
    }
}

} // verus!
