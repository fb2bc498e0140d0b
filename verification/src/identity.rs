//! Deterministic derivation of the record's and the vault's addresses.

use vstd::prelude::*;
use std::str::FromStr;
use anchor_lang::prelude::Pubkey;
use crate::state::Address;

verus! {

/// The address and nonce that the host's derivation yields for a list of
/// seeds under a program, or `None` where it yields none.
pub uninterp spec fn program_address(seeds: Seq<Seq<u8>>, program_id: Seq<u8>) -> Option<(Seq<u8>, u8)>;

/// An address together with the nonce that made its derivation canonical.
#[derive(Clone, Copy, Debug, PartialEq, Eq)]
pub struct Derived {
    pub address: Address,
    pub nonce: u8,
}

impl View for Derived {
    type V = (Seq<u8>, u8);

    open spec fn view(&self) -> (Seq<u8>, u8) {
        (self.address@, self.nonce)
    }
}

/// What a derivation that may have failed stands for.
pub open spec fn derived_view(found: Option<Derived>) -> Option<(Seq<u8>, u8)> {
    match found {
        Some(d) => Some(d@),
        None => None,
    }
}

/// Namespace tag of bot records: the bytes of `bot`.
pub open spec fn bot_tag() -> Seq<u8> {
    seq![98u8, 111u8, 116u8]
}

/// Namespace tag of vaults: the bytes of `vault`.
pub open spec fn vault_tag() -> Seq<u8> {
    seq![118u8, 97u8, 117u8, 108u8, 116u8]
}

/// Derivation of a bot record's address from owner and bot identifier.
pub open spec fn bot_meta_derivation(owner: Seq<u8>, bot_id_hash: Seq<u8>, program_id: Seq<u8>) -> Option<(Seq<u8>, u8)> {
    program_address(seq![bot_tag(), owner, bot_id_hash], program_id)
}

/// Derivation of a vault's address from owner and bot identifier.
pub open spec fn vault_derivation(owner: Seq<u8>, bot_id_hash: Seq<u8>, program_id: Seq<u8>) -> Option<(Seq<u8>, u8)> {
    program_address(seq![vault_tag(), owner, bot_id_hash], program_id)
}

/// Derivation of the address at which a wallet holds tokens of a mint.
pub open spec fn token_account_derivation(
    wallet: Seq<u8>,
    token_program: Seq<u8>,
    mint: Seq<u8>,
    associated_program: Seq<u8>,
) -> Option<(Seq<u8>, u8)> {
    program_address(seq![wallet, token_program, mint], associated_program)
}

/// Calls `Pubkey::try_find_program_address` with the three seeds `first`,
/// `second` and `third`. Trusted: the result is the derivation's value for
/// exactly these seeds and this program, and depends on nothing else.
#[verifier::external_body]
fn find_program_address(first: &[u8], second: &Address, third: &[u8; 32], program_id: &Address) -> (found: Option<Derived>)
    ensures
        derived_view(found) == program_address(seq![first@, second@, third@], program_id@),
{
    let program = Pubkey::new_from_array(program_id.bytes);
    let found = Pubkey::try_find_program_address(&[first, &second.bytes, third], &program);
    found.map(|(key, nonce)| Derived { address: Address { bytes: key.to_bytes() }, nonce })
}

/// The address that a text in base 58 stands for, or `None` where it
/// stands for none.
pub uninterp spec fn decoded_address(text: Seq<char>) -> Option<Seq<u8>>;

/// What an address that may be absent stands for.
pub open spec fn address_view(found: Option<Address>) -> Option<Seq<u8>> {
    match found {
        Some(a) => Some(a@),
        None => None,
    }
}

/// Calls `Pubkey::from_str`. Trusted: the result is the decoding of exactly
/// this text, `None` where the text is refused, and depends on nothing else.
#[verifier::external_body]
pub(crate) fn decode_address(text: &str) -> (found: Option<Address>)
    ensures
        address_view(found) == decoded_address(text@),
{
    match Pubkey::from_str(text) {
        Ok(key) => Some(Address { bytes: key.to_bytes() }),
        Err(_) => None,
    }
}

/// Reads `anchor_lang::system_program::ID`. Trusted: it is the address made
/// of 32 zero bytes.
#[verifier::external_body]
pub(crate) fn system_program_id() -> (id: Address)
    ensures
        id@ == Seq::new(32, |i: int| 0u8),
{
    Address { bytes: anchor_lang::system_program::ID.to_bytes() }
}

/// Derives the address and nonce of the record of `(owner, bot_id_hash)`.
pub fn derive_bot_meta(owner: &Address, bot_id_hash: &[u8; 32], program_id: &Address) -> (found: Option<Derived>)
    ensures
        derived_view(found) == bot_meta_derivation(owner@, bot_id_hash@, program_id@),
{
    let tag: [u8; 3] = [98, 111, 116];
    assert(tag@ =~= bot_tag());
    find_program_address(tag.as_slice(), owner, bot_id_hash, program_id)
}

/// Derives the address and nonce of the vault of `(owner, bot_id_hash)`.
pub fn derive_vault(owner: &Address, bot_id_hash: &[u8; 32], program_id: &Address) -> (found: Option<Derived>)
    ensures
        derived_view(found) == vault_derivation(owner@, bot_id_hash@, program_id@),
{
    let tag: [u8; 5] = [118, 97, 117, 108, 116];
    assert(tag@ =~= vault_tag());
    find_program_address(tag.as_slice(), owner, bot_id_hash, program_id)
}

/// Derives the address at which `wallet` holds tokens of `mint`.
pub fn derive_token_account(
    wallet: &Address,
    token_program: &Address,
    mint: &Address,
    associated_program: &Address,
) -> (found: Option<Derived>)
    ensures
        derived_view(found) == token_account_derivation(wallet@, token_program@, mint@, associated_program@),
{
    find_program_address(wallet.bytes.as_slice(), token_program, &mint.bytes, associated_program)
}

} // verus!
