//! Reason codes with which an operation is refused.

use vstd::prelude::*;

verus! {

/// Why the engine itself refused an operation.
#[derive(Clone, Copy, Debug, PartialEq, Eq)]
pub enum SolscopeError {
    /// The temporary wrap account is not fresh.
    InvalidVault,
    /// The vault holds less than the amount asked for.
    InsufficientVaultFunds,
    /// An amount of zero.
    InvalidAmount,
    /// The supplied bot identifier hash is not the recorded one.
    BotIdMismatch,
    /// The bot's pause flag is set.
    BotPaused,
    /// The recorded derivation nonce is not the one the derivation yields.
    InvalidBotMetaBump,
    /// Wrong owner, wrong vault, wrong derived address, missing signature,
    /// unknown trade side or a step out of sequence.
    Unauthorized,
    /// The swap delivered less than the minimum output.
    SlippageExceeded,
}

/// Why the host ledger refused a request that the engine had let through.
#[derive(Clone, Copy, Debug, PartialEq, Eq)]
pub enum HostError {
    /// An account already occupies the address.
    AccountInUse,
    /// The paying account holds less than the amount.
    InsufficientFunds,
    /// The receiving balance would exceed what a balance can hold.
    BalanceOverflow,
    /// No account is at the address.
    AccountMissing,
}

/// The single reason with which a call ends when it does not succeed.
#[derive(Clone, Copy, Debug, PartialEq, Eq)]
pub enum Failure {
    Program(SolscopeError),
    Host(HostError),
}

impl SolscopeError {
    /// The text of each reason.
    pub open spec fn message_text(self) -> Seq<char> {
        match self {
            SolscopeError::InvalidVault => "Invalid vault account"@,
            SolscopeError::InsufficientVaultFunds => "Insufficient vault funds"@,
            SolscopeError::InvalidAmount => "Invalid amount"@,
            SolscopeError::BotIdMismatch => "Bot ID hash mismatch"@,
            SolscopeError::BotPaused => "Bot is paused"@,
            SolscopeError::InvalidBotMetaBump => "Invalid BotMeta bump"@,
            SolscopeError::Unauthorized => "Unauthorized operation"@,
            SolscopeError::SlippageExceeded => "Slippage exceeded minimum output"@,
        }
    }

    /// The position of each reason in the list, counted from zero.
    pub open spec fn ordinal(self) -> int {
        match self {
            SolscopeError::InvalidVault => 0,
            SolscopeError::InsufficientVaultFunds => 1,
            SolscopeError::InvalidAmount => 2,
            SolscopeError::BotIdMismatch => 3,
            SolscopeError::BotPaused => 4,
            SolscopeError::InvalidBotMetaBump => 5,
            SolscopeError::Unauthorized => 6,
            SolscopeError::SlippageExceeded => 7,
        }
    }

    /// Human-readable text of the reason.
    pub fn message(&self) -> (text: &'static str)
        ensures
            text@ == self.message_text(),
    {
        match self {
            SolscopeError::InvalidVault => "Invalid vault account",
            SolscopeError::InsufficientVaultFunds => "Insufficient vault funds",
            SolscopeError::InvalidAmount => "Invalid amount",
            SolscopeError::BotIdMismatch => "Bot ID hash mismatch",
            SolscopeError::BotPaused => "Bot is paused",
            SolscopeError::InvalidBotMetaBump => "Invalid BotMeta bump",
            SolscopeError::Unauthorized => "Unauthorized operation",
            SolscopeError::SlippageExceeded => "Slippage exceeded minimum output",
        }
    }

    /// Numeric code of the reason: custom codes start at 6000.
    pub fn code(&self) -> (code: u32)
        ensures
            code == 6000 + self.ordinal(),
    {
        match self {
            SolscopeError::InvalidVault => 6000,
            SolscopeError::InsufficientVaultFunds => 6001,
            SolscopeError::InvalidAmount => 6002,
            SolscopeError::BotIdMismatch => 6003,
            SolscopeError::BotPaused => 6004,
            SolscopeError::InvalidBotMetaBump => 6005,
            SolscopeError::Unauthorized => 6006,
            SolscopeError::SlippageExceeded => 6007,
        }
    }
}

} // verus!
