use vstd::prelude::*;
use crate::error::ErrorCode;
use crate::key::PublicKey;
use crate::message::{decode_message, extract_message, ExtractedMessage};
use crate::settings::Settings;
use crate::signature::{check_signature, ed25519_accepts, signature_check};
use crate::window::{check_window, window_check};

verus! {

/// A verification request: a signature and the message it claims to sign.
#[derive(Clone, Debug)]
pub struct VerifyRangeArgs {
    pub signature: Vec<u8>,
    pub message: Vec<u8>,
}

/// The accounts that a verification involves: the caller, and the settings
/// record, which is only read.
#[derive(Clone, Copy, Debug)]
pub struct VerifyRange {
    pub signer: PublicKey,
    pub settings: Settings,
}

/// The outcome of verifying `signature` over `message` at time `now` against
/// `settings`: decode the message, check its timestamp against the window,
/// then check that it names the authority and that the authority signed it.
/// The first step that fails gives the error.
pub open spec fn verification(
    settings: Settings,
    now: u64,
    signature: Seq<u8>,
    message: Seq<u8>,
) -> Result<(), ErrorCode> {
    match decode_message(message) {
        Err(e) => Err(e),
        Ok((timestamp, claimed)) => match window_check(now, settings.window_size, timestamp) {
            Err(e) => Err(e),
            Ok(_) => signature_check(settings.range_signer@, claimed, signature, message),
        },
    }
}

/// Accepts a signed message when its timestamp lies strictly within the
/// window around `current_timestamp`, it names the registered authority, and
/// the authority's signature over its exact bytes verifies. Nothing is
/// recorded: the same request gets the same answer every time.
pub fn verify_range(ctx: &VerifyRange, current_timestamp: u64, args: VerifyRangeArgs) -> (r:
    Result<(), ErrorCode>)
    ensures
        r == verification(ctx.settings, current_timestamp, args.signature@, args.message@),
{
    let VerifyRangeArgs { signature, message } = args;
    let settings = &ctx.settings;
    let ExtractedMessage { timestamp, pubkey } = extract_message(message.as_slice())?;
    check_window(current_timestamp, settings.window_size, timestamp)?;
    check_signature(&settings.range_signer, &pubkey, signature.as_slice(), message.as_slice())?;
    Ok(())
}

/// A message that names the authority, carries a timestamp strictly inside
/// the window, and comes with the authority's valid signature over its exact
/// bytes is accepted.
pub proof fn lemma_valid_request_accepted(
    settings: Settings,
    now: u64,
    signature: Seq<u8>,
    message: Seq<u8>,
    timestamp: u64,
)
    requires
        decode_message(message) == Ok::<(u64, Seq<u8>), ErrorCode>(
            (timestamp, settings.range_signer@),
        ),
        now - settings.window_size < timestamp < now + settings.window_size,
        signature.len() == 64,
        ed25519_accepts(settings.range_signer@, signature, message),
    ensures
        verification(settings, now, signature, message) == Ok::<(), ErrorCode>(()),
{
}

/// A timely message that names any key but the authority is rejected as from
/// the wrong signer, whether or not its signature is valid under the key it
/// names: that key is never used to verify.
pub proof fn lemma_foreign_key_rejected(
    settings: Settings,
    now: u64,
    signature: Seq<u8>,
    message: Seq<u8>,
    timestamp: u64,
    claimed: Seq<u8>,
)
    requires
        decode_message(message) == Ok::<(u64, Seq<u8>), ErrorCode>((timestamp, claimed)),
        now - settings.window_size < timestamp < now + settings.window_size,
        claimed != settings.range_signer@,
    ensures
        verification(settings, now, signature, message) == Err::<(), ErrorCode>(
            ErrorCode::WrongSigner,
        ),
{
}

/// A timely message that names the authority, but whose signature is not a
/// valid signature by the authority over its exact bytes, is rejected as
/// unverified.
pub proof fn lemma_invalid_signature_rejected(
    settings: Settings,
    now: u64,
    signature: Seq<u8>,
    message: Seq<u8>,
    timestamp: u64,
)
    requires
        decode_message(message) == Ok::<(u64, Seq<u8>), ErrorCode>(
            (timestamp, settings.range_signer@),
        ),
        now - settings.window_size < timestamp < now + settings.window_size,
        !(signature.len() == 64 && ed25519_accepts(settings.range_signer@, signature, message)),
    ensures
        verification(settings, now, signature, message) == Err::<(), ErrorCode>(
            ErrorCode::CouldntVerifySignature,
        ),
{
}

/// The outcome depends on the request, the time, the authority and the
/// window size alone: nothing is kept from one request to the next, so a
/// request accepted once is accepted again, however often it is repeated.
pub proof fn lemma_outcome_depends_on_request_alone(
    first: Settings,
    second: Settings,
    now: u64,
    signature: Seq<u8>,
    message: Seq<u8>,
)
    requires
        first.range_signer@ == second.range_signer@,
        first.window_size == second.window_size,
    ensures
        verification(first, now, signature, message) == verification(
            second,
            now,
            signature,
            message,
        ),
{
}

} // verus!
