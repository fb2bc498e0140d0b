//! The data that the engine keeps and reads: addresses and the bot record.

use vstd::prelude::*;

verus! {

/// A 32-byte account address.
#[derive(Clone, Copy, Debug, PartialEq, Eq)]
pub struct Address {
    pub bytes: [u8; 32],
}

impl View for Address {
    type V = Seq<u8>;

    open spec fn view(&self) -> Seq<u8> {
        self.bytes@
    }
}

/// Whether two 32-byte values hold the same bytes.
pub fn bytes_equal(a: &[u8; 32], b: &[u8; 32]) -> (same: bool)
    ensures
        same == (a@ == b@),
{
    let mut i: usize = 0;
    while i < 32
        invariant
            i <= 32,
            forall|j: int| 0 <= j < i ==> a@[j] == b@[j],
        decreases 32 - i,
    {
        if a[i] != b[i] {
            return false;
        }
        i += 1;
    }
    assert(a@ =~= b@);
    true
}

impl Address {
    /// The address made of the given bytes.
    pub fn new(bytes: [u8; 32]) -> (address: Address)
        ensures
            address.bytes == bytes,
    {
        Address { bytes }
    }

    /// Whether this is the same address as `other`.
    pub fn is(&self, other: &Address) -> (same: bool)
        ensures
            same == (self@ == other@),
    {
        bytes_equal(&self.bytes, &other.bytes)
    }
}

/// The record kept for one bot: who controls it, which vault is its own,
/// and whether it is paused.
#[derive(Clone, Copy, Debug, PartialEq, Eq)]
pub struct BotMeta {
    /// Principal that controls the bot.
    pub owner: Address,
    /// Commitment to the bot's off-chain identifier.
    pub bot_id_hash: [u8; 32],
    /// Address of the vault that holds the bot's funds.
    pub vault: Address,
    /// Creation time, in seconds.
    pub created_at: i64,
    /// Nonce with which the record's own address is derived.
    pub bump: u8,
    /// Safety interlock: while set, no funds move.
    pub paused: bool,
}

impl BotMeta {
    /// Width of the stored record: two addresses, the hash, the timestamp,
    /// the nonce and the pause flag.
    pub const LEN: usize = 106;
}

/// A principal as the host presents it: its address, and whether it has
/// signed the call.
#[derive(Clone, Copy, Debug, PartialEq, Eq)]
pub struct Signer {
    pub key: Address,
    pub is_signer: bool,
}

/// A stored bot record together with the address it is stored at.
#[derive(Clone, Copy, Debug, PartialEq, Eq)]
pub struct BotMetaAccount {
    pub key: Address,
    pub data: BotMeta,
}

/// A vault as the host presents it: its address and its native balance.
#[derive(Clone, Copy, Debug, PartialEq, Eq)]
pub struct VaultAccount {
    pub key: Address,
    pub lamports: u64,
}

/// The vault's holding account for the traded asset: its address, the
/// asset's mint, the authority that may spend from it, and what it holds.
#[derive(Clone, Copy, Debug, PartialEq, Eq)]
pub struct TokenAccount {
    pub key: Address,
    pub mint: Address,
    pub owner: Address,
    pub amount: u64,
}

/// The temporary wrap account as it is handed in for one trade: its
/// address, whether it co-signed the call, and the program that owns it.
#[derive(Clone, Copy, Debug, PartialEq, Eq)]
pub struct WrapAccount {
    pub key: Address,
    pub is_signer: bool,
    pub owner: Address,
}

} // verus!
