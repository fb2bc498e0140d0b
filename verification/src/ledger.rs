//! The movements of funds that the engine asks of the host ledger, and what
//! each does to the balances it touches.

use vstd::prelude::*;
use crate::errors::HostError;
use crate::state::Address;

verus! {

/// The seeds with which the engine proves that it is the vault's authority:
/// those of the vault's creation, nonce included.
#[derive(Clone, Copy, Debug, PartialEq, Eq)]
pub struct VaultAuthority {
    pub owner: Address,
    pub bot_id_hash: [u8; 32],
    pub nonce: u8,
}

/// A movement of native funds from one account to another. Where
/// `authority` is set the engine signs for the paying vault; otherwise the
/// payer's own signature carries it.
#[derive(Clone, Copy, Debug, PartialEq, Eq)]
pub struct Transfer {
    pub from: Address,
    pub to: Address,
    pub lamports: u64,
    pub authority: Option<VaultAuthority>,
}

/// Balances of payer and payee after a transfer, or why it is refused.
pub open spec fn transfer_outcome(from: u64, to: u64, lamports: u64) -> Result<(u64, u64), HostError> {
    if from < lamports {
        Err(HostError::InsufficientFunds)
    } else if to + lamports > u64::MAX {
        Err(HostError::BalanceOverflow)
    } else {
        Ok(((from - lamports) as u64, (to + lamports) as u64))
    }
}

/// Moves `lamports` from a balance of `from` to a balance of `to`.
pub fn transfer(from: u64, to: u64, lamports: u64) -> (r: Result<(u64, u64), HostError>)
    ensures
        r == transfer_outcome(from, to, lamports),
{
    if from < lamports {
        Err(HostError::InsufficientFunds)
    } else if lamports > u64::MAX - to {
        Err(HostError::BalanceOverflow)
    } else {
        Ok((from - lamports, to + lamports))
    }
}

/// Balances of the vault and of the wrap account, while one exists.
#[derive(Clone, Copy, Debug, PartialEq, Eq)]
pub struct WrapLedger {
    pub vault: u64,
    pub wrap: Option<u64>,
}

impl WrapLedger {
    /// The ledger after the wrap account is created with `lamports` taken
    /// from the vault, or why the creation is refused.
    pub open spec fn opened(self, lamports: u64) -> Result<WrapLedger, HostError> {
        if self.wrap is Some {
            Err(HostError::AccountInUse)
        } else if self.vault < lamports {
            Err(HostError::InsufficientFunds)
        } else {
            Ok(WrapLedger { vault: (self.vault - lamports) as u64, wrap: Some(lamports) })
        }
    }

    /// The ledger after the wrap account is closed into the vault: all that
    /// it held returns, and the account is gone.
    pub open spec fn closed(self) -> Result<WrapLedger, HostError> {
        match self.wrap {
            None => Err(HostError::AccountMissing),
            Some(held) => if self.vault + held > u64::MAX {
                Err(HostError::BalanceOverflow)
            } else {
                Ok(WrapLedger { vault: (self.vault + held) as u64, wrap: None })
            },
        }
    }

    /// Creates the wrap account, funded from the vault.
    pub fn open(&mut self, lamports: u64) -> (r: Result<(), HostError>)
        ensures
            match old(self).opened(lamports) {
                Ok(after) => r is Ok && *final(self) == after,
                Err(e) => r == Err::<(), HostError>(e) && *final(self) == *old(self),
            },
    {
        if self.wrap.is_some() {
            return Err(HostError::AccountInUse);
        }
        if self.vault < lamports {
            return Err(HostError::InsufficientFunds);
        }
        self.vault = self.vault - lamports;
        self.wrap = Some(lamports);
        Ok(())
    }

    /// Closes the wrap account into the vault.
    pub fn close(&mut self) -> (r: Result<(), HostError>)
        ensures
            match old(self).closed() {
                Ok(after) => r is Ok && *final(self) == after,
                Err(e) => r == Err::<(), HostError>(e) && *final(self) == *old(self),
            },
    {
        match self.wrap {
            None => Err(HostError::AccountMissing),
            Some(held) => {
                if held > u64::MAX - self.vault {
                    Err(HostError::BalanceOverflow)
                } else {
                    self.vault = self.vault + held;
                    self.wrap = None;
                    Ok(())
                }
            },
        }
    }
}

} // verus!
