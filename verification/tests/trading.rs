use std::str::FromStr;

use anchor_lang::prelude::Pubkey;
use solscope::errors::{HostError, SolscopeError};
use solscope::execute_trade::{
    raydium_amm_program, raydium_swap_base_in_data, AccountRef, Action, Event, ExecuteTrade,
    Market, Side, Stage, Trade, SIDE_BUY, SIDE_SELL,
};
use solscope::identity::{derive_bot_meta, derive_token_account, derive_vault, Derived};
use solscope::ledger::{VaultAuthority, WrapLedger};
use solscope::state::{Address, BotMeta, BotMetaAccount, Signer, TokenAccount, VaultAccount, WrapAccount};

const RENT: u64 = 2_039_280;

fn addr(byte: u8) -> Address {
    Address::new([byte; 32])
}

fn hash() -> [u8; 32] {
    [42u8; 32]
}

fn market() -> Market {
    Market {
        amm_program: raydium_amm_program().unwrap(),
        amm: addr(20),
        amm_authority: addr(21),
        amm_open_orders: addr(22),
        amm_target_orders: addr(23),
        pool_coin_token_account: addr(24),
        pool_pc_token_account: addr(25),
        serum_market: addr(26),
        serum_bids: addr(27),
        serum_asks: addr(28),
        serum_event_queue: addr(29),
        serum_coin_vault: addr(30),
        serum_pc_vault: addr(31),
        serum_vault_signer: addr(32),
    }
}

fn trade_ctx(vault_lamports: u64, tokens: u64) -> ExecuteTrade {
    let meta = derive_bot_meta(&addr(1), &hash(), &addr(7)).unwrap();
    let vault = derive_vault(&addr(1), &hash(), &addr(7)).unwrap();
    let ata = derive_token_account(&vault.address, &addr(50), &addr(60), &addr(51)).unwrap();
    ExecuteTrade {
        program_id: addr(7),
        owner: Signer { key: addr(1), is_signer: true },
        bot_meta: BotMetaAccount {
            key: meta.address,
            data: BotMeta {
                owner: addr(1),
                bot_id_hash: hash(),
                vault: vault.address,
                created_at: 5,
                bump: meta.nonce,
                paused: false,
            },
        },
        vault: VaultAccount { key: vault.address, lamports: vault_lamports },
        mint: addr(60),
        vault_ata: TokenAccount { key: ata.address, mint: addr(60), owner: vault.address, amount: tokens },
        vault_wsol: WrapAccount { key: addr(41), is_signer: true, owner: addr(0) },
        market: market(),
        token_program: addr(50),
        associated_token_program: addr(51),
        rent_min: RENT,
    }
}

struct Balances {
    ledger: WrapLedger,
    wrapped: u64,
    tokens: u64,
}

/// Runs one trade against an in-memory host whose swap pays out a fixed
/// amount; on failure the balances are left as they were.
fn run(
    ctx: &ExecuteTrade,
    balances: &mut Balances,
    side: u8,
    amount_in: u64,
    min_out: u64,
    swap_out: u64,
) -> Result<Vec<Action>, SolscopeError> {
    let mut trade = solscope::execute_trade(ctx, &hash(), side, amount_in, min_out)?;
    let mut work = Balances { ledger: balances.ledger, wrapped: balances.wrapped, tokens: balances.tokens };
    let mut done = Vec::new();
    loop {
        let action = trade.pending();
        done.push(action);
        let event = match action {
            Action::CreateWrapAccount { lamports, space } => {
                assert_eq!(space, 165);
                work.ledger.open(lamports).unwrap();
                Event::WrapCreated
            }
            Action::InitializeAndSync => {
                work.wrapped = work.ledger.wrap.unwrap() - RENT;
                Event::WrapSynced
            }
            Action::Swap { amount_in, wrap_is_source, .. } => {
                if wrap_is_source {
                    work.wrapped -= amount_in;
                    work.ledger.wrap = Some(work.ledger.wrap.unwrap() - amount_in);
                    work.tokens += swap_out;
                    Event::Swapped { balance: work.tokens }
                } else {
                    work.tokens -= amount_in;
                    work.wrapped += swap_out;
                    work.ledger.wrap = Some(work.ledger.wrap.unwrap() + swap_out);
                    Event::Swapped { balance: work.wrapped }
                }
            }
            Action::CloseWrapAccount => {
                work.ledger.close().unwrap();
                work.wrapped = 0;
                Event::WrapClosed
            }
            Action::Finished => break,
        };
        trade.advance(event)?;
    }
    assert_eq!(trade.stage, Stage::Closed);
    *balances = work;
    Ok(done)
}

#[test]
fn amm_program_is_the_decoded_text() {
    let expected = Pubkey::from_str("RVKd61ztZW9KQqkHn7kYk9Z3n5Vf3L7hPwrKyYVJZZz").unwrap();
    assert_eq!(raydium_amm_program(), Some(Address::new(expected.to_bytes())));
    assert_ne!(raydium_amm_program(), Some(addr(0)));
}

#[test]
fn swap_data_is_tag_and_two_amounts() {
    assert_eq!(
        raydium_swap_base_in_data(1_000_000, 1),
        vec![9, 0x40, 0x42, 0x0f, 0, 0, 0, 0, 0, 1, 0, 0, 0, 0, 0, 0, 0]
    );
    assert_eq!(
        raydium_swap_base_in_data(0x0102030405060708, u64::MAX),
        vec![9, 8, 7, 6, 5, 4, 3, 2, 1, 255, 255, 255, 255, 255, 255, 255, 255]
    );
}

#[test]
fn buy_with_fixed_output_succeeds() {
    let ctx = trade_ctx(10_000_000, 70);
    let mut balances = Balances { ledger: WrapLedger { vault: 10_000_000, wrap: None }, wrapped: 0, tokens: 70 };
    let done = run(&ctx, &mut balances, SIDE_BUY, 1_000_000, 1, 500).unwrap();
    assert_eq!(balances.tokens, 570);
    assert_eq!(balances.ledger, WrapLedger { vault: 9_000_000, wrap: None });
    assert_eq!(
        done,
        vec![
            Action::CreateWrapAccount { lamports: 1_000_000 + RENT, space: 165 },
            Action::InitializeAndSync,
            Action::Swap { amount_in: 1_000_000, min_out: 1, wrap_is_source: true },
            Action::CloseWrapAccount,
            Action::Finished,
        ]
    );
}

#[test]
fn buy_below_minimum_fails_with_slippage() {
    let ctx = trade_ctx(10_000_000, 70);
    let mut balances = Balances { ledger: WrapLedger { vault: 10_000_000, wrap: None }, wrapped: 0, tokens: 70 };
    assert_eq!(
        run(&ctx, &mut balances, SIDE_BUY, 1_000_000, 501, 500),
        Err(SolscopeError::SlippageExceeded)
    );
    assert_eq!(balances.ledger, WrapLedger { vault: 10_000_000, wrap: None });
    assert_eq!(balances.tokens, 70);
    let mut exact = Balances { ledger: WrapLedger { vault: 10_000_000, wrap: None }, wrapped: 0, tokens: 70 };
    assert!(run(&ctx, &mut exact, SIDE_BUY, 1_000_000, 500, 500).is_ok());
}

#[test]
fn sell_returns_proceeds_to_the_vault() {
    let ctx = trade_ctx(10_000_000, 900);
    let mut balances = Balances { ledger: WrapLedger { vault: 10_000_000, wrap: None }, wrapped: 0, tokens: 900 };
    let done = run(&ctx, &mut balances, SIDE_SELL, 400, 3_000, 3_000).unwrap();
    assert_eq!(balances.tokens, 500);
    assert_eq!(balances.ledger, WrapLedger { vault: 10_003_000, wrap: None });
    assert_eq!(done[0], Action::CreateWrapAccount { lamports: RENT, space: 165 });
    assert_eq!(done[2], Action::Swap { amount_in: 400, min_out: 3_000, wrap_is_source: false });
    let mut short = Balances { ledger: WrapLedger { vault: 10_000_000, wrap: None }, wrapped: 0, tokens: 900 };
    assert_eq!(
        run(&ctx, &mut short, SIDE_SELL, 400, 3_000, 2_999),
        Err(SolscopeError::SlippageExceeded)
    );
    assert_eq!(short.ledger.vault, 10_000_000);
}

#[test]
fn stale_wrap_account_is_an_invalid_vault() {
    let mut ctx = trade_ctx(10_000_000, 70);
    ctx.vault_wsol.owner = addr(50);
    assert_eq!(
        solscope::execute_trade(&ctx, &hash(), SIDE_BUY, 1_000_000, 1),
        Err(SolscopeError::InvalidVault)
    );
    let mut nearly = trade_ctx(10_000_000, 70);
    nearly.vault_wsol.owner.bytes[31] = 1;
    assert_eq!(
        solscope::execute_trade(&nearly, &hash(), SIDE_SELL, 1, 1),
        Err(SolscopeError::InvalidVault)
    );
}

#[test]
fn trade_validation_reasons() {
    let ctx = trade_ctx(10_000_000, 70);
    assert_eq!(solscope::execute_trade(&ctx, &hash(), SIDE_BUY, 0, 1), Err(SolscopeError::InvalidAmount));
    assert_eq!(solscope::execute_trade(&ctx, &hash(), SIDE_BUY, 1, 0), Err(SolscopeError::InvalidAmount));
    assert_eq!(solscope::execute_trade(&ctx, &hash(), 2, 1, 1), Err(SolscopeError::Unauthorized));
    assert_eq!(solscope::execute_trade(&ctx, &[43u8; 32], SIDE_BUY, 1, 1), Err(SolscopeError::BotIdMismatch));
    let mut paused = ctx;
    paused.bot_meta.data.paused = true;
    assert_eq!(solscope::execute_trade(&paused, &hash(), SIDE_SELL, 1, 1), Err(SolscopeError::BotPaused));
    let mut unsigned = ctx;
    unsigned.vault_wsol.is_signer = false;
    assert_eq!(solscope::execute_trade(&unsigned, &hash(), SIDE_BUY, 1, 1), Err(SolscopeError::Unauthorized));
    let mut foreign = ctx;
    foreign.vault_ata.owner = addr(1);
    assert_eq!(solscope::execute_trade(&foreign, &hash(), SIDE_BUY, 1, 1), Err(SolscopeError::Unauthorized));
    let mut other_mint = ctx;
    other_mint.vault_ata.mint = addr(61);
    assert_eq!(solscope::execute_trade(&other_mint, &hash(), SIDE_BUY, 1, 1), Err(SolscopeError::Unauthorized));
    let mut elsewhere = ctx;
    elsewhere.vault_ata.key = addr(40);
    assert_eq!(solscope::execute_trade(&elsewhere, &hash(), SIDE_BUY, 1, 1), Err(SolscopeError::Unauthorized));
    let mut other_amm = ctx;
    other_amm.market.amm_program = addr(3);
    assert_eq!(solscope::execute_trade(&other_amm, &hash(), SIDE_BUY, 1, 1), Err(SolscopeError::Unauthorized));
    let mut rich = ctx;
    rich.rent_min = u64::MAX;
    assert_eq!(solscope::execute_trade(&rich, &hash(), SIDE_BUY, 1, 1), Err(SolscopeError::InvalidAmount));
    assert!(solscope::execute_trade(&rich, &hash(), SIDE_SELL, 1, 1).is_ok());
}

#[test]
fn accepted_trade_starts_uninitialized() {
    let ctx = trade_ctx(10_000_000, 70);
    let nonce = derive_vault(&addr(1), &hash(), &addr(7)).unwrap().nonce;
    let authority = VaultAuthority { owner: addr(1), bot_id_hash: hash(), nonce };
    assert_eq!(
        solscope::execute_trade(&ctx, &hash(), SIDE_BUY, 1_000_000, 1),
        Ok(Trade {
            side: Side::Buy,
            amount_in: 1_000_000,
            min_out: 1,
            before: 70,
            wrap_lamports: 1_000_000 + RENT,
            authority,
            stage: Stage::Uninitialized,
        })
    );
    assert_eq!(
        solscope::execute_trade(&ctx, &hash(), SIDE_SELL, 30, 2),
        Ok(Trade {
            side: Side::Sell,
            amount_in: 30,
            min_out: 2,
            before: 0,
            wrap_lamports: RENT,
            authority,
            stage: Stage::Uninitialized,
        })
    );
}

#[test]
fn reports_out_of_order_are_refused() {
    let ctx = trade_ctx(10_000_000, 70);
    let mut trade = solscope::execute_trade(&ctx, &hash(), SIDE_BUY, 10, 1).unwrap();
    let start = trade;
    assert_eq!(trade.advance(Event::WrapSynced), Err(SolscopeError::Unauthorized));
    assert_eq!(trade.advance(Event::Swapped { balance: 1_000 }), Err(SolscopeError::Unauthorized));
    assert_eq!(trade.advance(Event::WrapClosed), Err(SolscopeError::Unauthorized));
    assert_eq!(trade, start);
    assert_eq!(trade.advance(Event::WrapCreated), Ok(()));
    assert_eq!(trade.advance(Event::WrapCreated), Err(SolscopeError::Unauthorized));
    assert_eq!(trade.advance(Event::WrapSynced), Ok(()));
    assert_eq!(trade.advance(Event::Swapped { balance: 60 }), Err(SolscopeError::SlippageExceeded));
    assert_eq!(trade.stage, Stage::Synced);
    assert_eq!(trade.advance(Event::Swapped { balance: 71 }), Ok(()));
    assert_eq!(trade.advance(Event::WrapClosed), Ok(()));
    assert_eq!(trade.pending(), Action::Finished);
    assert_eq!(trade.advance(Event::WrapClosed), Err(SolscopeError::Unauthorized));
}

#[test]
fn swap_accounts_follow_the_side() {
    let ctx = trade_ctx(10_000_000, 70);
    let buy = ctx.swap_account_list(Side::Buy);
    let sell = ctx.swap_account_list(Side::Sell);
    assert_eq!(buy.len(), 16);
    let ata = ctx.vault_ata.key;
    assert_eq!(buy[6], AccountRef { key: addr(41), writable: true });
    assert_eq!(buy[7], AccountRef { key: ata, writable: true });
    assert_eq!(sell[6], AccountRef { key: ata, writable: true });
    assert_eq!(sell[7], AccountRef { key: addr(41), writable: true });
    let keys: Vec<u8> = buy.iter().map(|a| a.key.bytes[0]).collect();
    assert_eq!(keys, vec![20, 21, 22, 23, 24, 25, 41, ata.bytes[0], 26, 27, 28, 29, 30, 31, 32, 50]);
    let writable: Vec<bool> = buy.iter().map(|a| a.writable).collect();
    assert_eq!(
        writable,
        vec![true, false, true, true, true, true, true, true, false, true, true, true, true, true, false, false]
    );
}

#[test]
fn wrap_round_trip_leaves_nothing_behind() {
    let mut ledger = WrapLedger { vault: 5_000_000, wrap: None };
    assert_eq!(ledger.open(RENT + 1_000), Ok(()));
    assert_eq!(ledger, WrapLedger { vault: 5_000_000 - RENT - 1_000, wrap: Some(RENT + 1_000) });
    assert_eq!(ledger.open(1), Err(HostError::AccountInUse));
    assert_eq!(ledger.close(), Ok(()));
    assert_eq!(ledger, WrapLedger { vault: 5_000_000, wrap: None });
    assert_eq!(ledger.close(), Err(HostError::AccountMissing));
    assert_eq!(ledger.open(5_000_001), Err(HostError::InsufficientFunds));
    let mut full = WrapLedger { vault: u64::MAX, wrap: Some(1) };
    assert_eq!(full.close(), Err(HostError::BalanceOverflow));
    assert_eq!(full, WrapLedger { vault: u64::MAX, wrap: Some(1) });
}

#[test]
fn side_codes() {
    assert_eq!(Side::from_code(SIDE_BUY), Some(Side::Buy));
    assert_eq!(Side::from_code(SIDE_SELL), Some(Side::Sell));
    assert_eq!(Side::from_code(2), None);
    assert_eq!(Side::from_code(255), None);
}

#[test]
fn token_account_address_matches_the_host() {
    let found = derive_token_account(&addr(3), &addr(50), &addr(60), &addr(51)).unwrap();
    let (key, nonce) = Pubkey::find_program_address(
        &[&[3u8; 32], &[50u8; 32], &[60u8; 32]],
        &Pubkey::new_from_array([51u8; 32]),
    );
    assert_eq!(found, Derived { address: Address::new(key.to_bytes()), nonce });
}

#[test]
fn first_decision_takes_results_as_given() {
    let ctx = trade_ctx(10_000_000, 70);
    let meta = Some(Derived { address: ctx.bot_meta.key, nonce: ctx.bot_meta.data.bump });
    let vault = Some(Derived { address: ctx.vault.key, nonce: 9 });
    let ata = Some(Derived { address: ctx.vault_ata.key, nonce: 3 });
    let amm = Some(ctx.market.amm_program);
    let trade = solscope::execute_trade::decide(&ctx, &hash(), SIDE_BUY, 5, 1, &meta, &vault, &ata, &amm).unwrap();
    assert_eq!(trade.authority.nonce, 9);
    assert_eq!(trade.wrap_lamports, RENT + 5);
    assert_eq!(
        solscope::execute_trade::decide(&ctx, &hash(), SIDE_BUY, 5, 1, &meta, &vault, &None, &amm),
        Err(SolscopeError::Unauthorized)
    );
    assert_eq!(
        solscope::execute_trade::decide(&ctx, &hash(), SIDE_BUY, 5, 1, &meta, &vault, &ata, &None),
        Err(SolscopeError::Unauthorized)
    );
}

#[test]
fn swap_request_carries_program_accounts_and_amounts() {
    let ctx = trade_ctx(10_000_000, 70);
    let trade = solscope::execute_trade(&ctx, &hash(), SIDE_SELL, 400, 3_000).unwrap();
    let request = ctx.swap_instruction(&trade);
    assert_eq!(request.program, raydium_amm_program().unwrap());
    assert_eq!(request.accounts, ctx.swap_account_list(Side::Sell));
    assert_eq!(request.accounts[6].key, ctx.vault_ata.key);
    assert_eq!(request.accounts[7].key, addr(41));
    assert_eq!(request.data, raydium_swap_base_in_data(400, 3_000));
    assert_eq!(request.data, vec![9, 0x90, 0x01, 0, 0, 0, 0, 0, 0, 0xb8, 0x0b, 0, 0, 0, 0, 0, 0]);
}
