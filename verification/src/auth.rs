//! The authorization model: every gated operation holds what the caller
//! presents against the stored record and against a fresh derivation.

use vstd::prelude::*;
use crate::errors::SolscopeError;
use crate::identity::{derived_view, Derived};
use crate::state::{Address, BotMeta, BotMetaAccount, Signer};

verus! {

/// The reason, if any, for which the record refuses the caller.
///
/// In this order: the supplied identifier hash is not the stored one; the
/// bot is paused (only where `honour_pause`); the owner has not signed or is
/// not the stored owner; the record does not sit at the derived address; the
/// stored nonce is not the derived one.
pub open spec fn record_verdict(
    owner: Signer,
    bot_meta: BotMetaAccount,
    bot_id_hash: Seq<u8>,
    honour_pause: bool,
    derived: Option<(Seq<u8>, u8)>,
) -> Option<SolscopeError> {
    if bot_meta.data.bot_id_hash@ != bot_id_hash {
        Some(SolscopeError::BotIdMismatch)
    } else if honour_pause && bot_meta.data.paused {
        Some(SolscopeError::BotPaused)
    } else if !owner.is_signer || bot_meta.data.owner@ != owner.key@ {
        Some(SolscopeError::Unauthorized)
    } else {
        match derived {
            None => Some(SolscopeError::Unauthorized),
            Some((address, nonce)) => if address != bot_meta.key@ {
                Some(SolscopeError::Unauthorized)
            } else if nonce != bot_meta.data.bump {
                Some(SolscopeError::InvalidBotMetaBump)
            } else {
                None
            },
        }
    }
}

/// The reason, if any, for which a vault reference is refused: it is not
/// the vault that the record names, or not the derived vault address.
pub open spec fn vault_verdict(
    meta: BotMeta,
    vault_key: Seq<u8>,
    derived: Option<(Seq<u8>, u8)>,
) -> Option<SolscopeError> {
    if meta.vault@ != vault_key {
        Some(SolscopeError::Unauthorized)
    } else {
        match derived {
            None => Some(SolscopeError::Unauthorized),
            Some((address, _)) => if address != vault_key {
                Some(SolscopeError::Unauthorized)
            } else {
                None
            },
        }
    }
}

/// The verdict of the whole gate: the record's, then the vault's.
pub open spec fn gate_verdict(
    owner: Signer,
    bot_meta: BotMetaAccount,
    vault_key: Seq<u8>,
    bot_id_hash: Seq<u8>,
    honour_pause: bool,
    derived_meta: Option<(Seq<u8>, u8)>,
    derived_vault: Option<(Seq<u8>, u8)>,
) -> Option<SolscopeError> {
    match record_verdict(owner, bot_meta, bot_id_hash, honour_pause, derived_meta) {
        Some(e) => Some(e),
        None => vault_verdict(bot_meta.data, vault_key, derived_vault),
    }
}

/// Holds the caller against the stored record.
pub fn check_record(
    owner: &Signer,
    bot_meta: &BotMetaAccount,
    bot_id_hash: &[u8; 32],
    honour_pause: bool,
    derived: &Option<Derived>,
) -> (r: Result<(), SolscopeError>)
    ensures
        match r {
            Ok(_) => record_verdict(*owner, *bot_meta, bot_id_hash@, honour_pause, derived_view(*derived)) is None,
            Err(e) => record_verdict(*owner, *bot_meta, bot_id_hash@, honour_pause, derived_view(*derived)) == Some(e),
        },
{
    if !crate::state::bytes_equal(&bot_meta.data.bot_id_hash, bot_id_hash) {
        return Err(SolscopeError::BotIdMismatch);
    }
    if honour_pause && bot_meta.data.paused {
        return Err(SolscopeError::BotPaused);
    }
    if !owner.is_signer || !bot_meta.data.owner.is(&owner.key) {
        return Err(SolscopeError::Unauthorized);
    }
    match derived {
        None => Err(SolscopeError::Unauthorized),
        Some(d) => {
            if !d.address.is(&bot_meta.key) {
                Err(SolscopeError::Unauthorized)
            } else if d.nonce != bot_meta.data.bump {
                Err(SolscopeError::InvalidBotMetaBump)
            } else {
                Ok(())
            }
        },
    }
}

/// Holds a vault reference against the record and the derivation. On
/// success returns the nonce with which the engine signs for the vault.
pub fn check_vault(meta: &BotMeta, vault_key: &Address, derived: &Option<Derived>) -> (r: Result<u8, SolscopeError>)
    ensures
        match r {
            Ok(nonce) => vault_verdict(*meta, vault_key@, derived_view(*derived)) is None
                && derived_view(*derived) == Some((vault_key@, nonce)),
            Err(e) => vault_verdict(*meta, vault_key@, derived_view(*derived)) == Some(e),
        },
{
    if !meta.vault.is(vault_key) {
        return Err(SolscopeError::Unauthorized);
    }
    match derived {
        None => Err(SolscopeError::Unauthorized),
        Some(d) => {
            if !d.address.is(vault_key) {
                Err(SolscopeError::Unauthorized)
            } else {
                Ok(d.nonce)
            }
        },
    }
}

/// The whole gate. On success returns the vault's derivation nonce.
pub fn authorize(
    owner: &Signer,
    bot_meta: &BotMetaAccount,
    vault_key: &Address,
    bot_id_hash: &[u8; 32],
    honour_pause: bool,
    derived_meta: &Option<Derived>,
    derived_vault: &Option<Derived>,
) -> (r: Result<u8, SolscopeError>)
    ensures
        match r {
            Ok(nonce) => gate_verdict(*owner, *bot_meta, vault_key@, bot_id_hash@, honour_pause,
                derived_view(*derived_meta), derived_view(*derived_vault)) is None
                && derived_view(*derived_vault) == Some((vault_key@, nonce)),
            Err(e) => gate_verdict(*owner, *bot_meta, vault_key@, bot_id_hash@, honour_pause,
                derived_view(*derived_meta), derived_view(*derived_vault)) == Some(e),
        },
{
    match check_record(owner, bot_meta, bot_id_hash, honour_pause, derived_meta) {
        Err(e) => Err(e),
        Ok(_) => check_vault(&bot_meta.data, vault_key, derived_vault),
    }
}

} // verus!
