use vstd::prelude::*;
use crate::error::ErrorCode;
use crate::key::PublicKey;

verus! {

/// The one configuration record: who may sign, and how far a signed
/// timestamp may stray from the current time.
#[derive(Clone, Copy, Debug)]
pub struct Settings {
    /// The bump of the address where the record is stored.
    pub bump: u8,
    /// Half the width, in seconds, of the window around the current time.
    pub window_size: u64,
    /// The one key that may sign messages.
    pub range_signer: PublicKey,
}

impl Settings {
    /// Bytes taken by a stored record: an 8-byte type tag, the bump, the
    /// window size and the key.
    pub const SIZE: usize = 8 + 1 + 8 + 32;

    /// The seed of the record's address.
    pub const SEED: &'static str = "Settings";

    pub fn new(bump: u8, window_size: u64, range_signer: PublicKey) -> (r: Settings)
        ensures
            r.bump == bump,
            r.window_size == window_size,
            r.range_signer == range_signer,
    {
        Settings { bump, window_size, range_signer }
    }
}

/// What the caller supplies when the settings are written.
#[derive(Clone, Copy, Debug)]
pub struct InitializeSettingsArgs {
    pub window_size: u64,
}

/// The accounts that writing the settings involves: the payer, the record,
/// the key that becomes the authority, and the bump that the record's
/// address was found with.
#[derive(Clone, Copy, Debug)]
pub struct InitializeSettings {
    pub signer: PublicKey,
    pub settings: Settings,
    pub range_signer: PublicKey,
    pub settings_bump: u8,
}

/// Writes the settings record whole: the bump of its address, the window size
/// from `args`, and the key of the `range_signer` account as the authority.
/// Any window size is accepted, zero too.
pub fn initialize_settings(
    ctx: &mut InitializeSettings,
    args: InitializeSettingsArgs,
) -> (r: Result<(), ErrorCode>)
    ensures
        r is Ok,
        final(ctx).settings == (Settings {
            bump: old(ctx).settings_bump,
            window_size: args.window_size,
            range_signer: old(ctx).range_signer,
        }),
        final(ctx).signer == old(ctx).signer,
        final(ctx).range_signer == old(ctx).range_signer,
        final(ctx).settings_bump == old(ctx).settings_bump,
{
    let InitializeSettingsArgs { window_size } = args;
    ctx.settings = Settings::new(ctx.settings_bump, window_size, ctx.range_signer);
    Ok(())
}

} // verus!
