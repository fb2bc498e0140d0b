//! Custodial execution engine for an autonomous trading agent.
//!
//! A bot's funds sit in a vault whose address is derived from the owner and
//! the bot identifier. Every operation re-derives that address, checks the
//! caller against the bot's record, and only then decides which movement of
//! funds the host ledger is to carry out.

use vstd::prelude::*;

pub mod errors;
pub mod state;
pub mod layout;
pub mod identity;
pub mod auth;
pub mod ledger;
pub mod register_bot;
pub mod assert_vault;
pub mod fund_vault;
pub mod withdraw;
pub mod set_paused;
pub mod execute_trade;
pub mod guarantees;

use crate::assert_vault::AssertVault;
use crate::errors::{Failure, SolscopeError};
use crate::execute_trade::{amm_program_text, ExecuteTrade, Trade};
use crate::fund_vault::FundVault;
use crate::identity::{bot_meta_derivation, decoded_address, token_account_derivation, vault_derivation};
use crate::ledger::Transfer;
use crate::register_bot::RegisterBot;
use crate::set_paused::SetPaused;
use crate::withdraw::Withdraw;

verus! {

/// Registers a bot: creates its record and its vault.
pub fn register_bot(ctx: &mut RegisterBot, bot_id_hash: &[u8; 32], now: i64) -> (r: Result<(), Failure>)
    ensures
        match old(ctx).outcome(
            *bot_id_hash,
            now,
            bot_meta_derivation(old(ctx).owner.key@, bot_id_hash@, old(ctx).program_id@),
            vault_derivation(old(ctx).owner.key@, bot_id_hash@, old(ctx).program_id@),
        ) {
            Ok(after) => r is Ok && *final(ctx) == after,
            Err(e) => r == Err::<(), Failure>(e) && *final(ctx) == *old(ctx),
        },
{
    crate::register_bot::handler(ctx, bot_id_hash, now)
}

/// Probes a vault reference; changes nothing.
pub fn assert_vault(ctx: &AssertVault, bot_id_hash: &[u8; 32]) -> (r: Result<(), SolscopeError>)
    ensures
        r == ctx.outcome(
            bot_id_hash@,
            bot_meta_derivation(ctx.owner.key@, bot_id_hash@, ctx.program_id@),
            vault_derivation(ctx.owner.key@, bot_id_hash@, ctx.program_id@),
        ),
{
    crate::assert_vault::handler(ctx, bot_id_hash)
}

/// Decides a funding of the vault by its owner.
pub fn fund_vault(ctx: &FundVault, bot_id_hash: &[u8; 32], amount: u64) -> (r: Result<Transfer, SolscopeError>)
    ensures
        r == ctx.outcome(
            bot_id_hash@,
            amount,
            bot_meta_derivation(ctx.owner.key@, bot_id_hash@, ctx.program_id@),
            vault_derivation(ctx.owner.key@, bot_id_hash@, ctx.program_id@),
        ),
{
    crate::fund_vault::handler(ctx, bot_id_hash, amount)
}

/// Decides a withdrawal from the vault to its owner.
pub fn withdraw(ctx: &Withdraw, bot_id_hash: &[u8; 32], amount: u64) -> (r: Result<Transfer, SolscopeError>)
    ensures
        r == ctx.outcome(
            *bot_id_hash,
            amount,
            bot_meta_derivation(ctx.owner.key@, bot_id_hash@, ctx.program_id@),
            vault_derivation(ctx.owner.key@, bot_id_hash@, ctx.program_id@),
        ),
{
    crate::withdraw::handler(ctx, bot_id_hash, amount)
}

/// Sets or clears the bot's pause flag.
pub fn set_paused(ctx: &mut SetPaused, bot_id_hash: &[u8; 32], paused: bool) -> (r: Result<(), SolscopeError>)
    ensures
        match old(ctx).outcome(bot_id_hash@, paused, bot_meta_derivation(old(ctx).owner.key@, bot_id_hash@, old(ctx).program_id@)) {
            Ok(after) => r is Ok && *final(ctx) == after,
            Err(e) => r == Err::<(), SolscopeError>(e) && *final(ctx) == *old(ctx),
        },
{
    crate::set_paused::handler(ctx, bot_id_hash, paused)
}

/// Decides whether a trade may start, and returns it at its first stage.
pub fn execute_trade(ctx: &ExecuteTrade, bot_id_hash: &[u8; 32], side: u8, amount_in: u64, min_out: u64) -> (r: Result<Trade, SolscopeError>)
    ensures
        r == ctx.outcome(
            *bot_id_hash,
            side,
            amount_in,
            min_out,
            bot_meta_derivation(ctx.owner.key@, bot_id_hash@, ctx.program_id@),
            vault_derivation(ctx.owner.key@, bot_id_hash@, ctx.program_id@),
            token_account_derivation(ctx.vault.key@, ctx.token_program@, ctx.mint@, ctx.associated_token_program@),
            decoded_address(amm_program_text()),
        ),
{
    crate::execute_trade::handler(ctx, bot_id_hash, side, amount_in, min_out)
}

} // verus!
