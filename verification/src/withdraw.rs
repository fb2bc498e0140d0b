//! Withdrawal: the engine, as the vault's only authority, pays the owner.

use vstd::prelude::*;
use crate::auth::{authorize, gate_verdict};
use crate::errors::SolscopeError;
use crate::identity::{bot_meta_derivation, derive_bot_meta, derive_vault, derived_view, vault_derivation, Derived};
use crate::ledger::{Transfer, VaultAuthority};
use crate::state::{Address, BotMetaAccount, Signer, VaultAccount};

verus! {

/// What the caller presents when withdrawing from a vault.
#[derive(Clone, Copy, Debug, PartialEq, Eq)]
pub struct Withdraw {
    pub program_id: Address,
    pub owner: Signer,
    pub bot_meta: BotMetaAccount,
    pub vault: VaultAccount,
}

impl Withdraw {
    /// The transfer that a withdrawal asks for, or the reason it is
    /// refused: a zero amount first, then what the authorization model finds, then a vault
    /// that holds less than the amount.
    pub open spec fn outcome(
        self,
        bot_id_hash: [u8; 32],
        amount: u64,
        derived_meta: Option<(Seq<u8>, u8)>,
        derived_vault: Option<(Seq<u8>, u8)>,
    ) -> Result<Transfer, SolscopeError> {
        if amount == 0 {
            Err(SolscopeError::InvalidAmount)
        } else {
            match gate_verdict(self.owner, self.bot_meta, self.vault.key@, bot_id_hash@, true, derived_meta, derived_vault) {
                Some(e) => Err(e),
                None => if self.vault.lamports < amount {
                    Err(SolscopeError::InsufficientVaultFunds)
                } else {
                    Ok(Transfer {
                        from: self.vault.key,
                        to: self.owner.key,
                        lamports: amount,
                        authority: Some(VaultAuthority {
                            owner: self.owner.key,
                            bot_id_hash,
                            nonce: derived_vault->Some_0.1,
                        }),
                    })
                },
            }
        }
    }
}

/// Withdrawal, on derivations already made.
pub fn decide(
    ctx: &Withdraw,
    bot_id_hash: &[u8; 32],
    amount: u64,
    derived_meta: &Option<Derived>,
    derived_vault: &Option<Derived>,
) -> (r: Result<Transfer, SolscopeError>)
    ensures
        r == ctx.outcome(*bot_id_hash, amount, derived_view(*derived_meta), derived_view(*derived_vault)),
{
    if amount == 0 {
        return Err(SolscopeError::InvalidAmount);
    }
    match authorize(&ctx.owner, &ctx.bot_meta, &ctx.vault.key, bot_id_hash, true, derived_meta, derived_vault) {
        Err(e) => Err(e),
        Ok(nonce) => {
            if ctx.vault.lamports < amount {
                Err(SolscopeError::InsufficientVaultFunds)
            } else {
                Ok(Transfer {
                    from: ctx.vault.key,
                    to: ctx.owner.key,
                    lamports: amount,
                    authority: Some(VaultAuthority { owner: ctx.owner.key, bot_id_hash: *bot_id_hash, nonce }),
                })
            }
        },
    }
}

/// Decides a withdrawal: where the amount is positive, the caller is authorized and
/// the vault holds at least `amount`, the transfer of `amount` from the
/// vault to the owner, signed with the seeds of the vault's own derivation;
/// otherwise the reason.
pub fn handler(ctx: &Withdraw, bot_id_hash: &[u8; 32], amount: u64) -> (r: Result<Transfer, SolscopeError>)
    ensures
        r == ctx.outcome(
            *bot_id_hash,
            amount,
            bot_meta_derivation(ctx.owner.key@, bot_id_hash@, ctx.program_id@),
            vault_derivation(ctx.owner.key@, bot_id_hash@, ctx.program_id@),
        ),
{
    let derived_meta = derive_bot_meta(&ctx.owner.key, bot_id_hash, &ctx.program_id);
    let derived_vault = derive_vault(&ctx.owner.key, bot_id_hash, &ctx.program_id);
    decide(ctx, bot_id_hash, amount, &derived_meta, &derived_vault)
}

} // verus!
