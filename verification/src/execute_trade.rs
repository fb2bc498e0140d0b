//! The trade orchestrator: wrap, swap, verify the output, unwrap.
//!
//! The engine decides and the host acts. A call is first held against the
//! gate and turned into a [`Trade`]; from then on the trade names the next
//! action for the host, and each report of the host moves it one stage on.
//! A failure at any stage ends the call, and the host undoes what was done.

use vstd::prelude::*;
use vstd::bytes::{spec_u64_to_le_bytes, u64_to_le_bytes};
use spl_token::solana_program::program_pack::Pack;
use crate::auth::{authorize, gate_verdict};
use crate::errors::SolscopeError;
use crate::identity::{
    address_view, bot_meta_derivation, decode_address, decoded_address, derive_bot_meta,
    derive_token_account, derive_vault, derived_view, system_program_id,
    token_account_derivation, vault_derivation, Derived,
};
use crate::layout::append;
use crate::ledger::VaultAuthority;
use crate::state::{Address, BotMetaAccount, Signer, TokenAccount, VaultAccount, WrapAccount};

verus! {

/// Code of the side that spends native funds to acquire the traded asset.
pub const SIDE_BUY: u8 = 0;

/// Code of the side that spends the traded asset to acquire native funds.
pub const SIDE_SELL: u8 = 1;

/// Direction of a trade.
#[derive(Clone, Copy, Debug, PartialEq, Eq)]
pub enum Side {
    Buy,
    Sell,
}

/// The direction that a side code names, if any.
pub open spec fn side_of(code: u8) -> Option<Side> {
    if code == SIDE_BUY {
        Some(Side::Buy)
    } else if code == SIDE_SELL {
        Some(Side::Sell)
    } else {
        None
    }
}

impl Side {
    /// Decodes a side code.
    pub fn from_code(code: u8) -> (side: Option<Side>)
        ensures
            side == side_of(code),
    {
        if code == SIDE_BUY {
            Some(Side::Buy)
        } else if code == SIDE_SELL {
            Some(Side::Sell)
        } else {
            None
        }
    }
}

/// Text of the liquidity protocol's program address.
pub open spec fn amm_program_text() -> Seq<char> {
    "RVKd61ztZW9KQqkHn7kYk9Z3n5Vf3L7hPwrKyYVJZZz"@
}

/// Address of the liquidity protocol's program.
pub fn raydium_amm_program() -> (program: Option<Address>)
    ensures
        address_view(program) == decoded_address(amm_program_text()),
{
    decode_address("RVKd61ztZW9KQqkHn7kYk9Z3n5Vf3L7hPwrKyYVJZZz")
}

/// Bytes of a swap request: the request's tag, then both amounts, each in
/// eight bytes, least significant first.
pub open spec fn swap_data(amount_in: u64, min_out: u64) -> Seq<u8> {
    seq![9u8] + spec_u64_to_le_bytes(amount_in) + spec_u64_to_le_bytes(min_out)
}

/// Encodes the swap request for `amount_in` with a minimum output of
/// `min_out`.
pub fn raydium_swap_base_in_data(amount_in: u64, min_out: u64) -> (data: Vec<u8>)
    ensures
        data@ == swap_data(amount_in, min_out),
        data@.len() == 17,
{
    let mut data: Vec<u8> = Vec::with_capacity(17);
    data.push(9);
    let first = u64_to_le_bytes(amount_in);
    let second = u64_to_le_bytes(min_out);
    append(&mut data, first.as_slice());
    append(&mut data, second.as_slice());
    data
}

/// Reads `spl_token::state::Account::LEN`. Trusted: a token account takes
/// 165 bytes.
#[verifier::external_body]
#[allow(deprecated)]
fn token_account_len() -> (len: u64)
    ensures
        len == 165,
{
    spl_token::state::Account::LEN as u64
}

/// The liquidity protocol's accounts. The engine does not look inside
/// them; it hands them on in the protocol's order.
#[derive(Clone, Copy, Debug, PartialEq, Eq)]
pub struct Market {
    pub amm_program: Address,
    pub amm: Address,
    pub amm_authority: Address,
    pub amm_open_orders: Address,
    pub amm_target_orders: Address,
    pub pool_coin_token_account: Address,
    pub pool_pc_token_account: Address,
    pub serum_market: Address,
    pub serum_bids: Address,
    pub serum_asks: Address,
    pub serum_event_queue: Address,
    pub serum_coin_vault: Address,
    pub serum_pc_vault: Address,
    pub serum_vault_signer: Address,
}

/// One account of a request: its address and whether the request may
/// write to it. None of them signs.
#[derive(Clone, Copy, Debug, PartialEq, Eq)]
pub struct AccountRef {
    pub key: Address,
    pub writable: bool,
}

/// A swap request as it goes to the liquidity protocol.
#[derive(Clone, Debug, PartialEq, Eq)]
pub struct SwapInstruction {
    pub program: Address,
    pub accounts: Vec<AccountRef>,
    pub data: Vec<u8>,
}

/// What the caller presents for a trade.
#[derive(Clone, Copy, Debug, PartialEq, Eq)]
pub struct ExecuteTrade {
    pub program_id: Address,
    pub owner: Signer,
    pub bot_meta: BotMetaAccount,
    pub vault: VaultAccount,
    /// Mint of the traded asset.
    pub mint: Address,
    /// The vault's account for the traded asset.
    pub vault_ata: TokenAccount,
    /// The temporary wrap account of this trade.
    pub vault_wsol: WrapAccount,
    pub market: Market,
    pub token_program: Address,
    pub associated_token_program: Address,
    /// Least balance that keeps an account of a token account's size alive.
    pub rent_min: u64,
}

/// How far the wrap account of a trade has come.
#[derive(Clone, Copy, Debug, PartialEq, Eq)]
pub enum Stage {
    Uninitialized,
    Created,
    Synced,
    PostSwap,
    Closed,
}

/// What the host is to do next.
#[derive(Clone, Copy, Debug, PartialEq, Eq)]
pub enum Action {
    /// Create the wrap account with `lamports` from the vault and room for
    /// `space` bytes, under the token program.
    CreateWrapAccount { lamports: u64, space: u64 },
    /// Initialize it as a wrapped-native account under the vault's
    /// authority and synchronize its wrapped balance.
    InitializeAndSync,
    /// Invoke the swap; `wrap_is_source` says which of the wrap account and
    /// the vault's token account pays.
    Swap { amount_in: u64, min_out: u64, wrap_is_source: bool },
    /// Close the wrap account into the vault.
    CloseWrapAccount,
    /// Nothing: the trade is complete.
    Finished,
}

/// What the host reports back.
#[derive(Clone, Copy, Debug, PartialEq, Eq)]
pub enum Event {
    WrapCreated,
    WrapSynced,
    /// The swap returned; `balance` is the balance read afterwards: of the
    /// vault's token account when buying, of the wrap account when selling.
    Swapped { balance: u64 },
    WrapClosed,
}

/// One trade in progress.
#[derive(Clone, Copy, Debug, PartialEq, Eq)]
pub struct Trade {
    pub side: Side,
    pub amount_in: u64,
    pub min_out: u64,
    /// Balance of the receiving account before the swap.
    pub before: u64,
    /// What the wrap account is created with.
    pub wrap_lamports: u64,
    /// Seeds with which the engine signs for the vault.
    pub authority: VaultAuthority,
    pub stage: Stage,
}

/// What arrived: the balance after the swap less the balance before it,
/// and nothing where it went down.
pub open spec fn received(before: u64, after: u64) -> int {
    if after >= before {
        after - before
    } else {
        0
    }
}

/// What the wrap account of a trade is funded with: always the rent
/// deposit, and when buying the amount to spend as well.
pub open spec fn wrap_funding(side: Side, amount_in: u64, rent_min: u64) -> int {
    match side {
        Side::Buy => rent_min + amount_in,
        Side::Sell => rent_min as int,
    }
}

/// The accounts of a swap request, in the protocol's order.
pub open spec fn swap_accounts(market: Market, source: Address, destination: Address, token_program: Address) -> Seq<AccountRef> {
    seq![
        AccountRef { key: market.amm, writable: true },
        AccountRef { key: market.amm_authority, writable: false },
        AccountRef { key: market.amm_open_orders, writable: true },
        AccountRef { key: market.amm_target_orders, writable: true },
        AccountRef { key: market.pool_coin_token_account, writable: true },
        AccountRef { key: market.pool_pc_token_account, writable: true },
        AccountRef { key: source, writable: true },
        AccountRef { key: destination, writable: true },
        AccountRef { key: market.serum_market, writable: false },
        AccountRef { key: market.serum_bids, writable: true },
        AccountRef { key: market.serum_asks, writable: true },
        AccountRef { key: market.serum_event_queue, writable: true },
        AccountRef { key: market.serum_coin_vault, writable: true },
        AccountRef { key: market.serum_pc_vault, writable: true },
        AccountRef { key: market.serum_vault_signer, writable: false },
        AccountRef { key: token_program, writable: false },
    ]
}

impl ExecuteTrade {
    /// Whether the token account is the vault's own for the traded asset:
    /// the vault is its authority, it holds the asset's mint, and it sits
    /// at the address derived for that vault and that mint.
    pub open spec fn holds_own_tokens(self, derived_ata: Option<(Seq<u8>, u8)>) -> bool {
        &&& self.vault_ata.owner@ == self.vault.key@
        &&& self.vault_ata.mint@ == self.mint@
        &&& derived_ata is Some
        &&& derived_ata->Some_0.0 == self.vault_ata.key@
    }

    /// The reason, if any, for which a trade is refused before anything is
    /// asked of the host. In this order: a zero amount or minimum; an
    /// unknown side; what the authorization model finds; a token account
    /// that is not the vault's own for the traded asset, at the address
    /// derived for it; a protocol program other than the
    /// expected one; a wrap account that has not co-signed; a wrap account
    /// that is not fresh; a funding that no balance can hold.
    pub open spec fn verdict(
        self,
        bot_id_hash: Seq<u8>,
        side: u8,
        amount_in: u64,
        min_out: u64,
        derived_meta: Option<(Seq<u8>, u8)>,
        derived_vault: Option<(Seq<u8>, u8)>,
        derived_ata: Option<(Seq<u8>, u8)>,
        amm_program: Option<Seq<u8>>,
    ) -> Option<SolscopeError> {
        if amount_in == 0 || min_out == 0 {
            Some(SolscopeError::InvalidAmount)
        } else if side_of(side) is None {
            Some(SolscopeError::Unauthorized)
        } else {
            match gate_verdict(self.owner, self.bot_meta, self.vault.key@, bot_id_hash, true, derived_meta, derived_vault) {
                Some(e) => Some(e),
                None => if !self.holds_own_tokens(derived_ata) {
                    Some(SolscopeError::Unauthorized)
                } else if amm_program != Some(self.market.amm_program@) {
                    Some(SolscopeError::Unauthorized)
                } else if !self.vault_wsol.is_signer {
                    Some(SolscopeError::Unauthorized)
                } else if self.vault_wsol.owner@ != Seq::new(32, |i: int| 0u8) {
                    Some(SolscopeError::InvalidVault)
                } else if wrap_funding(side_of(side)->Some_0, amount_in, self.rent_min) > u64::MAX {
                    Some(SolscopeError::InvalidAmount)
                } else {
                    None
                },
            }
        }
    }

    /// The trade that an accepted call starts: nothing done yet, the
    /// receiving balance recorded (the token balance when buying, zero when
    /// selling), the wrap account's funding fixed.
    pub open spec fn opening(
        self,
        bot_id_hash: [u8; 32],
        side: u8,
        amount_in: u64,
        min_out: u64,
        derived_vault: Option<(Seq<u8>, u8)>,
    ) -> Trade {
        let s = side_of(side)->Some_0;
        Trade {
            side: s,
            amount_in,
            min_out,
            before: match s {
                Side::Buy => self.vault_ata.amount,
                Side::Sell => 0,
            },
            wrap_lamports: wrap_funding(s, amount_in, self.rent_min) as u64,
            authority: VaultAuthority { owner: self.owner.key, bot_id_hash, nonce: derived_vault->Some_0.1 },
            stage: Stage::Uninitialized,
        }
    }

    /// The trade that the call starts, or the reason it is refused.
    pub open spec fn outcome(
        self,
        bot_id_hash: [u8; 32],
        side: u8,
        amount_in: u64,
        min_out: u64,
        derived_meta: Option<(Seq<u8>, u8)>,
        derived_vault: Option<(Seq<u8>, u8)>,
        derived_ata: Option<(Seq<u8>, u8)>,
        amm_program: Option<Seq<u8>>,
    ) -> Result<Trade, SolscopeError> {
        match self.verdict(bot_id_hash@, side, amount_in, min_out, derived_meta, derived_vault, derived_ata, amm_program) {
            Some(e) => Err(e),
            None => Ok(self.opening(bot_id_hash, side, amount_in, min_out, derived_vault)),
        }
    }

    /// The accounts of this trade's swap request: when buying the wrap
    /// account pays and the vault's token account receives, when selling
    /// the other way round.
    pub open spec fn swap_accounts_for(self, side: Side) -> Seq<AccountRef> {
        match side {
            Side::Buy => swap_accounts(self.market, self.vault_wsol.key, self.vault_ata.key, self.token_program),
            Side::Sell => swap_accounts(self.market, self.vault_ata.key, self.vault_wsol.key, self.token_program),
        }
    }

    /// Builds the swap request of `trade`: addressed to the protocol's
    /// program, with the accounts in the protocol's order as the trade's
    /// side binds them, and the trade's two amounts as data.
    pub fn swap_instruction(&self, trade: &Trade) -> (ix: SwapInstruction)
        ensures
            ix.program == self.market.amm_program,
            ix.accounts@ == self.swap_accounts_for(trade.side),
            ix.data@ == swap_data(trade.amount_in, trade.min_out),
    {
        SwapInstruction {
            program: self.market.amm_program,
            accounts: self.swap_account_list(trade.side),
            data: raydium_swap_base_in_data(trade.amount_in, trade.min_out),
        }
    }

    /// Lists the accounts of the swap request for `side`.
    pub fn swap_account_list(&self, side: Side) -> (accounts: Vec<AccountRef>)
        ensures
            accounts@ == self.swap_accounts_for(side),
    {
        let (source, destination) = match side {
            Side::Buy => (self.vault_wsol.key, self.vault_ata.key),
            Side::Sell => (self.vault_ata.key, self.vault_wsol.key),
        };
        let m = &self.market;
        let mut accounts: Vec<AccountRef> = Vec::with_capacity(16);
        accounts.push(AccountRef { key: m.amm, writable: true });
        accounts.push(AccountRef { key: m.amm_authority, writable: false });
        accounts.push(AccountRef { key: m.amm_open_orders, writable: true });
        accounts.push(AccountRef { key: m.amm_target_orders, writable: true });
        accounts.push(AccountRef { key: m.pool_coin_token_account, writable: true });
        accounts.push(AccountRef { key: m.pool_pc_token_account, writable: true });
        accounts.push(AccountRef { key: source, writable: true });
        accounts.push(AccountRef { key: destination, writable: true });
        accounts.push(AccountRef { key: m.serum_market, writable: false });
        accounts.push(AccountRef { key: m.serum_bids, writable: true });
        accounts.push(AccountRef { key: m.serum_asks, writable: true });
        accounts.push(AccountRef { key: m.serum_event_queue, writable: true });
        accounts.push(AccountRef { key: m.serum_coin_vault, writable: true });
        accounts.push(AccountRef { key: m.serum_pc_vault, writable: true });
        accounts.push(AccountRef { key: m.serum_vault_signer, writable: false });
        accounts.push(AccountRef { key: self.token_program, writable: false });
        assert(accounts@ =~= self.swap_accounts_for(side));
        accounts
    }
}

impl Trade {
    /// What holds of every trade that the engine has accepted: both amounts
    /// are positive, a sale starts from a receiving balance of zero, and a
    /// purchase funds the wrap account with at least the amount to spend.
    pub open spec fn well_formed(self) -> bool {
        &&& self.amount_in > 0
        &&& self.min_out > 0
        &&& self.side is Sell ==> self.before == 0
        &&& self.side is Buy ==> self.wrap_lamports >= self.amount_in
    }

    /// The action that each stage asks of the host.
    pub open spec fn pending_action(self) -> Action {
        match self.stage {
            Stage::Uninitialized => Action::CreateWrapAccount { lamports: self.wrap_lamports, space: 165 },
            Stage::Created => Action::InitializeAndSync,
            Stage::Synced => Action::Swap {
                amount_in: self.amount_in,
                min_out: self.min_out,
                wrap_is_source: self.side is Buy,
            },
            Stage::PostSwap => Action::CloseWrapAccount,
            Stage::Closed => Action::Finished,
        }
    }

    /// The trade after the host's report, or the reason the call ends. The
    /// stages follow one another in a line; a report that does not answer
    /// the pending action is refused; what the swap delivered is held
    /// against the minimum output.
    pub open spec fn after_event(self, event: Event) -> Result<Trade, SolscopeError> {
        match (self.stage, event) {
            (Stage::Uninitialized, Event::WrapCreated) => Ok(Trade { stage: Stage::Created, ..self }),
            (Stage::Created, Event::WrapSynced) => Ok(Trade { stage: Stage::Synced, ..self }),
            (Stage::Synced, Event::Swapped { balance }) => if received(self.before, balance) < self.min_out {
                Err(SolscopeError::SlippageExceeded)
            } else {
                Ok(Trade { stage: Stage::PostSwap, ..self })
            },
            (Stage::PostSwap, Event::WrapClosed) => Ok(Trade { stage: Stage::Closed, ..self }),
            _ => Err(SolscopeError::Unauthorized),
        }
    }

    /// Names the action that the host is to carry out next.
    pub fn pending(&self) -> (action: Action)
        ensures
            action == self.pending_action(),
    {
        match self.stage {
            Stage::Uninitialized => Action::CreateWrapAccount { lamports: self.wrap_lamports, space: token_account_len() },
            Stage::Created => Action::InitializeAndSync,
            Stage::Synced => Action::Swap {
                amount_in: self.amount_in,
                min_out: self.min_out,
                wrap_is_source: match self.side {
                    Side::Buy => true,
                    Side::Sell => false,
                },
            },
            Stage::PostSwap => Action::CloseWrapAccount,
            Stage::Closed => Action::Finished,
        }
    }

    /// Takes the host's report of the pending action and moves the trade
    /// one stage on, or ends the call and leaves the trade as it was.
    pub fn advance(&mut self, event: Event) -> (r: Result<(), SolscopeError>)
        ensures
            match old(self).after_event(event) {
                Ok(after) => r is Ok && *final(self) == after,
                Err(e) => r == Err::<(), SolscopeError>(e) && *final(self) == *old(self),
            },
    {
        match self.stage {
            Stage::Uninitialized => match event {
                Event::WrapCreated => {
                    self.stage = Stage::Created;
                    Ok(())
                },
                _ => Err(SolscopeError::Unauthorized),
            },
            Stage::Created => match event {
                Event::WrapSynced => {
                    self.stage = Stage::Synced;
                    Ok(())
                },
                _ => Err(SolscopeError::Unauthorized),
            },
            Stage::Synced => match event {
                Event::Swapped { balance } => {
                    let got: u64 = balance.saturating_sub(self.before);
                    if got < self.min_out {
                        Err(SolscopeError::SlippageExceeded)
                    } else {
                        self.stage = Stage::PostSwap;
                        Ok(())
                    }
                },
                _ => Err(SolscopeError::Unauthorized),
            },
            Stage::PostSwap => match event {
                Event::WrapClosed => {
                    self.stage = Stage::Closed;
                    Ok(())
                },
                _ => Err(SolscopeError::Unauthorized),
            },
            Stage::Closed => Err(SolscopeError::Unauthorized),
        }
    }
}

/// The trade's first decision, on derivations and a protocol address
/// already made.
pub fn decide(
    ctx: &ExecuteTrade,
    bot_id_hash: &[u8; 32],
    side: u8,
    amount_in: u64,
    min_out: u64,
    derived_meta: &Option<Derived>,
    derived_vault: &Option<Derived>,
    derived_ata: &Option<Derived>,
    amm_program: &Option<Address>,
) -> (r: Result<Trade, SolscopeError>)
    ensures
        r == ctx.outcome(
            *bot_id_hash,
            side,
            amount_in,
            min_out,
            derived_view(*derived_meta),
            derived_view(*derived_vault),
            derived_view(*derived_ata),
            address_view(*amm_program),
        ),
{
    if amount_in == 0 || min_out == 0 {
        return Err(SolscopeError::InvalidAmount);
    }
    let side = match Side::from_code(side) {
        None => { return Err(SolscopeError::Unauthorized); },
        Some(s) => s,
    };
    let nonce: u8 = match authorize(&ctx.owner, &ctx.bot_meta, &ctx.vault.key, bot_id_hash, true, derived_meta, derived_vault) {
        Err(e) => { return Err(e); },
        Ok(n) => n,
    };
    if !ctx.vault_ata.owner.is(&ctx.vault.key) || !ctx.vault_ata.mint.is(&ctx.mint) {
        return Err(SolscopeError::Unauthorized);
    }
    match derived_ata {
        None => { return Err(SolscopeError::Unauthorized); },
        Some(d) => {
            if !d.address.is(&ctx.vault_ata.key) {
                return Err(SolscopeError::Unauthorized);
            }
        },
    }
    match amm_program {
        None => { return Err(SolscopeError::Unauthorized); },
        Some(expected) => {
            if !expected.is(&ctx.market.amm_program) {
                return Err(SolscopeError::Unauthorized);
            }
        },
    }
    if !ctx.vault_wsol.is_signer {
        return Err(SolscopeError::Unauthorized);
    }
    let system = system_program_id();
    if !ctx.vault_wsol.owner.is(&system) {
        return Err(SolscopeError::InvalidVault);
    }
    let (before, funding): (u64, Option<u64>) = match side {
        Side::Buy => (ctx.vault_ata.amount, ctx.rent_min.checked_add(amount_in)),
        Side::Sell => (0, Some(ctx.rent_min)),
    };
    match funding {
        None => Err(SolscopeError::InvalidAmount),
        Some(wrap_lamports) => Ok(Trade {
            side,
            amount_in,
            min_out,
            before,
            wrap_lamports,
            authority: VaultAuthority { owner: ctx.owner.key, bot_id_hash: *bot_id_hash, nonce },
            stage: Stage::Uninitialized,
        }),
    }
}

/// Decides whether a trade may start. Where both amounts are positive, the
/// side is known, the caller is authorized, the token account is the
/// vault's own, the protocol program is the expected one and the wrap account
/// has co-signed and is fresh, returns the trade at its first stage;
/// otherwise the reason. Nothing has been asked of the
/// host when this returns.
pub fn handler(ctx: &ExecuteTrade, bot_id_hash: &[u8; 32], side: u8, amount_in: u64, min_out: u64) -> (r: Result<Trade, SolscopeError>)
    ensures
        r == ctx.outcome(
            *bot_id_hash,
            side,
            amount_in,
            min_out,
            bot_meta_derivation(ctx.owner.key@, bot_id_hash@, ctx.program_id@),
            vault_derivation(ctx.owner.key@, bot_id_hash@, ctx.program_id@),
            token_account_derivation(ctx.vault.key@, ctx.token_program@, ctx.mint@, ctx.associated_token_program@),
            decoded_address(amm_program_text()),
        ),
{
    let derived_meta = derive_bot_meta(&ctx.owner.key, bot_id_hash, &ctx.program_id);
    let derived_vault = derive_vault(&ctx.owner.key, bot_id_hash, &ctx.program_id);
    let derived_ata = derive_token_account(&ctx.vault.key, &ctx.token_program, &ctx.mint, &ctx.associated_token_program);
    let amm_program = raydium_amm_program();
    decide(ctx, bot_id_hash, side, amount_in, min_out, &derived_meta, &derived_vault, &derived_ata, &amm_program)
}

} // verus!
