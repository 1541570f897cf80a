use vstd::prelude::*;
use crate::error::ErrorCode;
use crate::key::PublicKey;

verus! {

/// Whether `signature` is a valid Ed25519 signature by `key` over `message`.
pub uninterp spec fn ed25519_accepts(key: Seq<u8>, signature: Seq<u8>, message: Seq<u8>) -> bool;

/// Relies on `brine_ed25519::verify`: RFC 8032 verification of a 64-byte
/// signature over `message` (handed over as a single piece) under `key`;
/// `Ok` means that the signature verifies.
#[verifier::external_body]
fn ed25519_verify(key: &PublicKey, signature: &[u8], message: &[u8]) -> (r: bool)
    requires
        signature@.len() == 64,
    ensures
        r == ed25519_accepts(key@, signature@, message@),
{
    let address = brine_ed25519::Address::new_from_array(key.bytes);
    let sig: [u8; 64] = core::array::from_fn(|i| signature[i]);
    brine_ed25519::verify(&address, &sig, &[message]).is_ok()
}

/// The identity and signature check: the key that the message names must be
/// the authority, and the signature must verify under the authority's key.
pub open spec fn signature_check(
    authority: Seq<u8>,
    claimed: Seq<u8>,
    signature: Seq<u8>,
    message: Seq<u8>,
) -> Result<(), ErrorCode> {
    if claimed != authority {
        Err(ErrorCode::WrongSigner)
    } else if signature.len() != 64 || !ed25519_accepts(authority, signature, message) {
        Err(ErrorCode::CouldntVerifySignature)
    } else {
        Ok(())
    }
}

/// Checks that `claimed_signer` is `authority`, then that `signature` signs
/// `message` under `authority`. The claimed key is only compared, never used
/// to verify.
pub fn check_signature(
    authority: &PublicKey,
    claimed_signer: &PublicKey,
    signature: &[u8],
    message: &[u8],
) -> (r: Result<(), ErrorCode>)
    ensures
        r == signature_check(authority@, claimed_signer@, signature@, message@),
{
    if !authority.same_as(claimed_signer) {
        return Err(ErrorCode::WrongSigner);
    }
    if signature.len() != 64 {
        return Err(ErrorCode::CouldntVerifySignature);
    }
    if ed25519_verify(authority, signature, message) {
        Ok(())
    } else {
        Err(ErrorCode::CouldntVerifySignature)
    }
}

} // verus!
