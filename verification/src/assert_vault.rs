//! Read-only probe: is this vault reference to be trusted right now?

use vstd::prelude::*;
use crate::auth::{authorize, gate_verdict};
use crate::errors::SolscopeError;
use crate::identity::{bot_meta_derivation, derive_bot_meta, derive_vault, derived_view, vault_derivation, Derived};
use crate::state::{Address, BotMetaAccount, Signer, VaultAccount};

verus! {

/// What the caller presents to the probe.
#[derive(Clone, Copy, Debug, PartialEq, Eq)]
pub struct AssertVault {
    pub program_id: Address,
    pub owner: Signer,
    pub bot_meta: BotMetaAccount,
    pub vault: VaultAccount,
}

impl AssertVault {
    /// The probe's answer, given what the two derivations yield.
    pub open spec fn outcome(
        self,
        bot_id_hash: Seq<u8>,
        derived_meta: Option<(Seq<u8>, u8)>,
        derived_vault: Option<(Seq<u8>, u8)>,
    ) -> Result<(), SolscopeError> {
        match gate_verdict(self.owner, self.bot_meta, self.vault.key@, bot_id_hash, true, derived_meta, derived_vault) {
            Some(e) => Err(e),
            None => Ok(()),
        }
    }
}

/// The probe, on derivations already made.
pub fn decide(
    ctx: &AssertVault,
    bot_id_hash: &[u8; 32],
    derived_meta: &Option<Derived>,
    derived_vault: &Option<Derived>,
) -> (r: Result<(), SolscopeError>)
    ensures
        r == ctx.outcome(bot_id_hash@, derived_view(*derived_meta), derived_view(*derived_vault)),
{
    match authorize(&ctx.owner, &ctx.bot_meta, &ctx.vault.key, bot_id_hash, true, derived_meta, derived_vault) {
        Ok(_) => Ok(()),
        Err(e) => Err(e),
    }
}

/// Succeeds exactly when the identifier hash is the stored one, the bot is
/// not paused, the owner is the stored owner and has signed, and record and
/// vault sit at their freshly derived addresses with the stored nonce.
/// Changes nothing.
pub fn handler(ctx: &AssertVault, bot_id_hash: &[u8; 32]) -> (r: Result<(), SolscopeError>)
    ensures
        r == ctx.outcome(
            bot_id_hash@,
            bot_meta_derivation(ctx.owner.key@, bot_id_hash@, ctx.program_id@),
            vault_derivation(ctx.owner.key@, bot_id_hash@, ctx.program_id@),
        ),
{
    let derived_meta = derive_bot_meta(&ctx.owner.key, bot_id_hash, &ctx.program_id);
    let derived_vault = derive_vault(&ctx.owner.key, bot_id_hash, &ctx.program_id);
    decide(ctx, bot_id_hash, &derived_meta, &derived_vault)
}

} // verus!
