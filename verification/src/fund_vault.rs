//! Funding: the owner moves native funds into the vault.

use vstd::prelude::*;
use crate::auth::{authorize, gate_verdict};
use crate::errors::SolscopeError;
use crate::identity::{bot_meta_derivation, derive_bot_meta, derive_vault, derived_view, vault_derivation, Derived};
use crate::ledger::Transfer;
use crate::state::{Address, BotMetaAccount, Signer, VaultAccount};

verus! {

/// What the caller presents when funding a vault.
#[derive(Clone, Copy, Debug, PartialEq, Eq)]
pub struct FundVault {
    pub program_id: Address,
    pub owner: Signer,
    pub bot_meta: BotMetaAccount,
    pub vault: VaultAccount,
}

impl FundVault {
    /// The transfer that funding asks for, or the reason it is refused: a
    /// zero amount first, then what the authorization model finds.
    pub open spec fn outcome(
        self,
        bot_id_hash: Seq<u8>,
        amount: u64,
        derived_meta: Option<(Seq<u8>, u8)>,
        derived_vault: Option<(Seq<u8>, u8)>,
    ) -> Result<Transfer, SolscopeError> {
        if amount == 0 {
            Err(SolscopeError::InvalidAmount)
        } else {
            match gate_verdict(self.owner, self.bot_meta, self.vault.key@, bot_id_hash, true, derived_meta, derived_vault) {
                Some(e) => Err(e),
                None => Ok(Transfer { from: self.owner.key, to: self.vault.key, lamports: amount, authority: None }),
            }
        }
    }
}

/// Funding, on derivations already made.
pub fn decide(
    ctx: &FundVault,
    bot_id_hash: &[u8; 32],
    amount: u64,
    derived_meta: &Option<Derived>,
    derived_vault: &Option<Derived>,
) -> (r: Result<Transfer, SolscopeError>)
    ensures
        r == ctx.outcome(bot_id_hash@, amount, derived_view(*derived_meta), derived_view(*derived_vault)),
{
    if amount == 0 {
        return Err(SolscopeError::InvalidAmount);
    }
    match authorize(&ctx.owner, &ctx.bot_meta, &ctx.vault.key, bot_id_hash, true, derived_meta, derived_vault) {
        Err(e) => Err(e),
        Ok(_) => Ok(Transfer { from: ctx.owner.key, to: ctx.vault.key, lamports: amount, authority: None }),
    }
}

/// Decides a funding call: where the amount is positive and the caller
/// is authorized, the transfer of `amount` from the owner to the vault, carried by
/// the owner's own signature; otherwise the reason.
pub fn handler(ctx: &FundVault, bot_id_hash: &[u8; 32], amount: u64) -> (r: Result<Transfer, SolscopeError>)
    ensures
        r == ctx.outcome(
            bot_id_hash@,
            amount,
            bot_meta_derivation(ctx.owner.key@, bot_id_hash@, ctx.program_id@),
            vault_derivation(ctx.owner.key@, bot_id_hash@, ctx.program_id@),
        ),
{
    let derived_meta = derive_bot_meta(&ctx.owner.key, bot_id_hash, &ctx.program_id);
    let derived_vault = derive_vault(&ctx.owner.key, bot_id_hash, &ctx.program_id);
    decide(ctx, bot_id_hash, amount, &derived_meta, &derived_vault)
}

} // verus!
