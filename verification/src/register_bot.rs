//! The registry: creates a bot's record and its vault, once.

use vstd::prelude::*;
use crate::errors::{Failure, HostError, SolscopeError};
use crate::identity::{bot_meta_derivation, derive_bot_meta, derive_vault, derived_view, vault_derivation, Derived};
use crate::state::{Address, BotMeta, Signer};

verus! {

/// The place of a bot record: its address, and the record if one is there.
#[derive(Clone, Copy, Debug, PartialEq, Eq)]
pub struct RecordSlot {
    pub key: Address,
    pub data: Option<BotMeta>,
}

/// The place of a vault: its address, and whether an account is there.
#[derive(Clone, Copy, Debug, PartialEq, Eq)]
pub struct VaultSlot {
    pub key: Address,
    pub exists: bool,
}

/// What the caller presents when registering a bot.
#[derive(Clone, Copy, Debug, PartialEq, Eq)]
pub struct RegisterBot {
    pub program_id: Address,
    pub owner: Signer,
    pub bot_meta: RecordSlot,
    pub vault: VaultSlot,
}

impl RegisterBot {
    /// The reason, if any, for which the registry refuses the call before
    /// it looks at what the two places hold.
    pub open spec fn refusal(self, derived_meta: Option<(Seq<u8>, u8)>, derived_vault: Option<(Seq<u8>, u8)>) -> bool {
        ||| !self.owner.is_signer
        ||| derived_meta is None
        ||| derived_meta->Some_0.0 != self.bot_meta.key@
        ||| derived_vault is None
        ||| derived_vault->Some_0.0 != self.vault.key@
    }

    /// The accounts after a registration at time `now`, or the reason it is
    /// refused. First write wins: an occupied place fails the call.
    pub open spec fn outcome(
        self,
        bot_id_hash: [u8; 32],
        now: i64,
        derived_meta: Option<(Seq<u8>, u8)>,
        derived_vault: Option<(Seq<u8>, u8)>,
    ) -> Result<RegisterBot, Failure> {
        if self.refusal(derived_meta, derived_vault) {
            Err(Failure::Program(SolscopeError::Unauthorized))
        } else if self.bot_meta.data is Some || self.vault.exists {
            Err(Failure::Host(HostError::AccountInUse))
        } else {
            Ok(RegisterBot {
                bot_meta: RecordSlot {
                    key: self.bot_meta.key,
                    data: Some(BotMeta {
                        owner: self.owner.key,
                        bot_id_hash,
                        vault: self.vault.key,
                        created_at: now,
                        bump: derived_meta->Some_0.1,
                        paused: false,
                    }),
                },
                vault: VaultSlot { key: self.vault.key, exists: true },
                ..self
            })
        }
    }
}

/// Registration, on derivations already made.
pub fn decide(
    ctx: &mut RegisterBot,
    bot_id_hash: &[u8; 32],
    now: i64,
    derived_meta: &Option<Derived>,
    derived_vault: &Option<Derived>,
) -> (r: Result<(), Failure>)
    ensures
        match old(ctx).outcome(*bot_id_hash, now, derived_view(*derived_meta), derived_view(*derived_vault)) {
            Ok(after) => r is Ok && *final(ctx) == after,
            Err(e) => r == Err::<(), Failure>(e) && *final(ctx) == *old(ctx),
        },
{
    if !ctx.owner.is_signer {
        return Err(Failure::Program(SolscopeError::Unauthorized));
    }
    let nonce: u8 = match derived_meta {
        None => { return Err(Failure::Program(SolscopeError::Unauthorized)); },
        Some(d) => {
            if !d.address.is(&ctx.bot_meta.key) {
                return Err(Failure::Program(SolscopeError::Unauthorized));
            }
            d.nonce
        },
    };
    match derived_vault {
        None => { return Err(Failure::Program(SolscopeError::Unauthorized)); },
        Some(d) => {
            if !d.address.is(&ctx.vault.key) {
                return Err(Failure::Program(SolscopeError::Unauthorized));
            }
        },
    }
    if ctx.bot_meta.data.is_some() || ctx.vault.exists {
        return Err(Failure::Host(HostError::AccountInUse));
    }
    ctx.bot_meta.data = Some(BotMeta {
        owner: ctx.owner.key,
        bot_id_hash: *bot_id_hash,
        vault: ctx.vault.key,
        created_at: now,
        bump: nonce,
        paused: false,
    });
    ctx.vault.exists = true;
    Ok(())
}

/// Registers the bot of `(owner, bot_id_hash)` at time `now`: where the
/// owner has signed, both places sit at their derived addresses and both
/// are vacant, writes the record (unpaused, with the derived nonce) and
/// creates the empty vault; otherwise changes nothing and gives the reason.
pub fn handler(ctx: &mut RegisterBot, bot_id_hash: &[u8; 32], now: i64) -> (r: Result<(), Failure>)
    ensures
        match old(ctx).outcome(
            *bot_id_hash,
            now,
            bot_meta_derivation(old(ctx).owner.key@, bot_id_hash@, old(ctx).program_id@),
            vault_derivation(old(ctx).owner.key@, bot_id_hash@, old(ctx).program_id@),
        ) {
            Ok(after) => r is Ok && *final(ctx) == after,
            Err(e) => r == Err::<(), Failure>(e) && *final(ctx) == *old(ctx),
        },
{
    let derived_meta = derive_bot_meta(&ctx.owner.key, bot_id_hash, &ctx.program_id);
    let derived_vault = derive_vault(&ctx.owner.key, bot_id_hash, &ctx.program_id);
    decide(ctx, bot_id_hash, now, &derived_meta, &derived_vault)
}

} // verus!
