//! Pause control: the owner's circuit breaker.

use vstd::prelude::*;
use crate::auth::{check_record, record_verdict};
use crate::errors::SolscopeError;
use crate::identity::{bot_meta_derivation, derive_bot_meta, derived_view, Derived};
use crate::state::{Address, BotMeta, BotMetaAccount, Signer};

verus! {

/// What the caller presents when setting the pause flag.
#[derive(Clone, Copy, Debug, PartialEq, Eq)]
pub struct SetPaused {
    pub program_id: Address,
    pub owner: Signer,
    pub bot_meta: BotMetaAccount,
}

impl SetPaused {
    /// The accounts after the call, or the reason it is refused. The pause
    /// flag itself is no obstacle; on success it alone is overwritten.
    pub open spec fn outcome(self, bot_id_hash: Seq<u8>, paused: bool, derived_meta: Option<(Seq<u8>, u8)>) -> Result<SetPaused, SolscopeError> {
        match record_verdict(self.owner, self.bot_meta, bot_id_hash, false, derived_meta) {
            Some(e) => Err(e),
            None => Ok(SetPaused {
                bot_meta: BotMetaAccount {
                    data: BotMeta { paused, ..self.bot_meta.data },
                    ..self.bot_meta
                },
                ..self
            }),
        }
    }
}

/// Pause control, on a derivation already made.
pub fn decide(ctx: &mut SetPaused, bot_id_hash: &[u8; 32], paused: bool, derived_meta: &Option<Derived>) -> (r: Result<(), SolscopeError>)
    ensures
        match old(ctx).outcome(bot_id_hash@, paused, derived_view(*derived_meta)) {
            Ok(after) => r is Ok && *final(ctx) == after,
            Err(e) => r == Err::<(), SolscopeError>(e) && *final(ctx) == *old(ctx),
        },
{
    match check_record(&ctx.owner, &ctx.bot_meta, bot_id_hash, false, derived_meta) {
        Err(e) => Err(e),
        Ok(_) => {
            ctx.bot_meta.data.paused = paused;
            Ok(())
        },
    }
}

/// Overwrites the record's pause flag where the caller is the stored owner
/// of the record at the derived address; otherwise changes nothing and
/// gives the reason.
pub fn handler(ctx: &mut SetPaused, bot_id_hash: &[u8; 32], paused: bool) -> (r: Result<(), SolscopeError>)
    ensures
        match old(ctx).outcome(bot_id_hash@, paused, bot_meta_derivation(old(ctx).owner.key@, bot_id_hash@, old(ctx).program_id@)) {
            Ok(after) => r is Ok && *final(ctx) == after,
            Err(e) => r == Err::<(), SolscopeError>(e) && *final(ctx) == *old(ctx),
        },
{
    let derived_meta = derive_bot_meta(&ctx.owner.key, bot_id_hash, &ctx.program_id);
    decide(ctx, bot_id_hash, paused, &derived_meta)
}

} // verus!
