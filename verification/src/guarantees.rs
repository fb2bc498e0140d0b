//! What holds of the operations taken together.

use vstd::prelude::*;
use crate::assert_vault::AssertVault;
use crate::auth::{gate_verdict, record_verdict};
use crate::errors::{Failure, HostError, SolscopeError};
use crate::execute_trade::{received, side_of, wrap_funding, Event, ExecuteTrade, Stage, Trade};
use crate::fund_vault::FundVault;
use crate::ledger::{transfer_outcome, WrapLedger};
use crate::register_bot::RegisterBot;
use crate::set_paused::SetPaused;
use crate::state::{BotMetaAccount, VaultAccount};
use crate::withdraw::Withdraw;

verus! {

/// A registration by a signed owner into the two vacant places at the
/// derived addresses succeeds; the probe then passes on the record it
/// wrote, whatever the vault holds; and a second registration of the same
/// pair, at any time, fails because the places are taken.
pub proof fn registration_is_probed_and_unique(
    ctx: RegisterBot,
    bot_id_hash: [u8; 32],
    now: i64,
    later: i64,
    vault_lamports: u64,
    derived_meta: Option<(Seq<u8>, u8)>,
    derived_vault: Option<(Seq<u8>, u8)>,
)
    requires
        !ctx.refusal(derived_meta, derived_vault),
        ctx.bot_meta.data is None,
        !ctx.vault.exists,
    ensures
        ctx.outcome(bot_id_hash, now, derived_meta, derived_vault) is Ok,
        ({
            let after = ctx.outcome(bot_id_hash, now, derived_meta, derived_vault)->Ok_0;
            let probe = AssertVault {
                program_id: after.program_id,
                owner: after.owner,
                bot_meta: BotMetaAccount { key: after.bot_meta.key, data: after.bot_meta.data->Some_0 },
                vault: VaultAccount { key: after.vault.key, lamports: vault_lamports },
            };
            &&& after.bot_meta.data is Some
            &&& probe.outcome(bot_id_hash@, derived_meta, derived_vault) is Ok
            &&& after.outcome(bot_id_hash, later, derived_meta, derived_vault)
                == Err::<RegisterBot, Failure>(Failure::Host(HostError::AccountInUse))
        }),
{
}

/// Funding a vault with a positive amount and then withdrawing the same
/// amount leaves the vault, and the owner, with what they held before;
/// and where the vault was empty before the funding, withdrawing one more
/// than was funded fails for want of funds.
pub proof fn fund_then_withdraw_restores_balance(
    ctx: FundVault,
    bot_id_hash: [u8; 32],
    amount: u64,
    owner_balance: u64,
    derived_meta: Option<(Seq<u8>, u8)>,
    derived_vault: Option<(Seq<u8>, u8)>,
)
    requires
        amount > 0,
        gate_verdict(ctx.owner, ctx.bot_meta, ctx.vault.key@, bot_id_hash@, true, derived_meta, derived_vault) is None,
        owner_balance >= amount,
        ctx.vault.lamports + amount <= u64::MAX,
    ensures
        ({
            let funding = ctx.outcome(bot_id_hash@, amount, derived_meta, derived_vault);
            let funded = transfer_outcome(owner_balance, ctx.vault.lamports, funding->Ok_0.lamports);
            let again = Withdraw {
                program_id: ctx.program_id,
                owner: ctx.owner,
                bot_meta: ctx.bot_meta,
                vault: VaultAccount { key: ctx.vault.key, lamports: funded->Ok_0.1 },
            };
            let withdrawal = again.outcome(bot_id_hash, amount, derived_meta, derived_vault);
            &&& funding is Ok
            &&& funded == Ok::<(u64, u64), HostError>(((owner_balance - amount) as u64, (ctx.vault.lamports + amount) as u64))
            &&& withdrawal is Ok
            &&& withdrawal->Ok_0.from == ctx.vault.key
            &&& withdrawal->Ok_0.to == ctx.owner.key
            &&& transfer_outcome(funded->Ok_0.1, funded->Ok_0.0, withdrawal->Ok_0.lamports)
                == Ok::<(u64, u64), HostError>((ctx.vault.lamports, owner_balance))
            &&& ctx.vault.lamports == 0 && amount < u64::MAX
                ==> again.outcome(bot_id_hash, (amount + 1) as u64, derived_meta, derived_vault)
                    == Err::<crate::ledger::Transfer, SolscopeError>(SolscopeError::InsufficientVaultFunds)
        }),
{
}

/// A withdrawal of more than the vault holds fails for want of funds,
/// however little is missing, when nothing else stands against it.
pub proof fn withdrawal_beyond_balance_fails(
    ctx: Withdraw,
    bot_id_hash: [u8; 32],
    amount: u64,
    derived_meta: Option<(Seq<u8>, u8)>,
    derived_vault: Option<(Seq<u8>, u8)>,
)
    requires
        gate_verdict(ctx.owner, ctx.bot_meta, ctx.vault.key@, bot_id_hash@, true, derived_meta, derived_vault) is None,
        amount > ctx.vault.lamports,
    ensures
        ctx.outcome(bot_id_hash, amount, derived_meta, derived_vault)
            == Err::<crate::ledger::Transfer, SolscopeError>(SolscopeError::InsufficientVaultFunds),
{
}

/// Once the owner has paused a bot, funding, withdrawal and trading on its
/// record all fail because it is paused, whatever else is presented, as
/// long as the amounts are positive and the side is known.
pub proof fn pause_stops_fund_movement(
    ctx: SetPaused,
    bot_id_hash: [u8; 32],
    derived_meta: Option<(Seq<u8>, u8)>,
    derived_vault: Option<(Seq<u8>, u8)>,
    derived_ata: Option<(Seq<u8>, u8)>,
    amm_program: Option<Seq<u8>>,
    fund: FundVault,
    withdraw: Withdraw,
    trade: ExecuteTrade,
    amount: u64,
    side: u8,
    min_out: u64,
)
    requires
        ctx.outcome(bot_id_hash@, true, derived_meta) is Ok,
        fund.bot_meta == ctx.outcome(bot_id_hash@, true, derived_meta)->Ok_0.bot_meta,
        withdraw.bot_meta == fund.bot_meta,
        trade.bot_meta == fund.bot_meta,
        amount > 0,
        min_out > 0,
        side_of(side) is Some,
    ensures
        fund.outcome(bot_id_hash@, amount, derived_meta, derived_vault)
            == Err::<crate::ledger::Transfer, SolscopeError>(SolscopeError::BotPaused),
        withdraw.outcome(bot_id_hash, amount, derived_meta, derived_vault)
            == Err::<crate::ledger::Transfer, SolscopeError>(SolscopeError::BotPaused),
        trade.outcome(bot_id_hash, side, amount, min_out, derived_meta, derived_vault, derived_ata, amm_program)
            == Err::<Trade, SolscopeError>(SolscopeError::BotPaused),
{
}

/// Pausing and then unpausing leaves the record as it was but for a
/// cleared pause flag, so that authorization succeeds again wherever nothing but
/// the pause stood against it.
pub proof fn unpause_restores_operation(
    ctx: SetPaused,
    bot_id_hash: [u8; 32],
    derived_meta: Option<(Seq<u8>, u8)>,
    derived_vault: Option<(Seq<u8>, u8)>,
    vault_key: Seq<u8>,
)
    requires
        ctx.outcome(bot_id_hash@, true, derived_meta) is Ok,
    ensures
        ({
            let paused = ctx.outcome(bot_id_hash@, true, derived_meta)->Ok_0;
            let resumed = paused.outcome(bot_id_hash@, false, derived_meta);
            &&& resumed == ctx.outcome(bot_id_hash@, false, derived_meta)
            &&& resumed is Ok
            &&& !resumed->Ok_0.bot_meta.data.paused
            &&& gate_verdict(ctx.owner, resumed->Ok_0.bot_meta, vault_key, bot_id_hash@, true, derived_meta, derived_vault)
                == gate_verdict(ctx.owner, ctx.bot_meta, vault_key, bot_id_hash@, false, derived_meta, derived_vault)
        }),
{
}

/// Whoever supplies an identifier hash other than the stored one is told
/// so by every gated operation, whatever signature and accounts come with
/// it, as long as the amounts are positive and the side is known.
pub proof fn wrong_identifier_is_refused(
    bot_meta: BotMetaAccount,
    bot_id_hash: [u8; 32],
    derived_meta: Option<(Seq<u8>, u8)>,
    derived_vault: Option<(Seq<u8>, u8)>,
    derived_ata: Option<(Seq<u8>, u8)>,
    amm_program: Option<Seq<u8>>,
    probe: AssertVault,
    fund: FundVault,
    withdraw: Withdraw,
    pause: SetPaused,
    trade: ExecuteTrade,
    amount: u64,
    side: u8,
    min_out: u64,
    paused: bool,
)
    requires
        bot_meta.data.bot_id_hash@ != bot_id_hash@,
        probe.bot_meta == bot_meta,
        fund.bot_meta == bot_meta,
        withdraw.bot_meta == bot_meta,
        pause.bot_meta == bot_meta,
        trade.bot_meta == bot_meta,
        amount > 0,
        min_out > 0,
        side_of(side) is Some,
    ensures
        probe.outcome(bot_id_hash@, derived_meta, derived_vault)
            == Err::<(), SolscopeError>(SolscopeError::BotIdMismatch),
        fund.outcome(bot_id_hash@, amount, derived_meta, derived_vault)
            == Err::<crate::ledger::Transfer, SolscopeError>(SolscopeError::BotIdMismatch),
        withdraw.outcome(bot_id_hash, amount, derived_meta, derived_vault)
            == Err::<crate::ledger::Transfer, SolscopeError>(SolscopeError::BotIdMismatch),
        pause.outcome(bot_id_hash@, paused, derived_meta)
            == Err::<SetPaused, SolscopeError>(SolscopeError::BotIdMismatch),
        trade.outcome(bot_id_hash, side, amount, min_out, derived_meta, derived_vault, derived_ata, amm_program)
            == Err::<Trade, SolscopeError>(SolscopeError::BotIdMismatch),
{
}

/// A trade whose wrap account is already owned by some program is refused
/// as an invalid vault when nothing before that check stands against it,
/// and a refused trade names no action for the host.
pub proof fn stale_wrap_account_is_refused(
    trade: ExecuteTrade,
    bot_id_hash: [u8; 32],
    side: u8,
    amount_in: u64,
    min_out: u64,
    derived_meta: Option<(Seq<u8>, u8)>,
    derived_vault: Option<(Seq<u8>, u8)>,
    derived_ata: Option<(Seq<u8>, u8)>,
    amm_program: Option<Seq<u8>>,
)
    requires
        amount_in > 0,
        min_out > 0,
        side_of(side) is Some,
        gate_verdict(trade.owner, trade.bot_meta, trade.vault.key@, bot_id_hash@, true, derived_meta, derived_vault) is None,
        trade.holds_own_tokens(derived_ata),
        amm_program == Some(trade.market.amm_program@),
        trade.vault_wsol.is_signer,
        trade.vault_wsol.owner@ != Seq::new(32, |i: int| 0u8),
    ensures
        trade.outcome(bot_id_hash, side, amount_in, min_out, derived_meta, derived_vault, derived_ata, amm_program)
            == Err::<Trade, SolscopeError>(SolscopeError::InvalidVault),
{
}

/// A trade that the engine accepts is well formed, has not begun, and
/// funds its wrap account with the rent deposit, and with the amount to
/// spend as well when buying; and no report of the host changes a trade's
/// terms or its being well formed.
pub proof fn accepted_trade_keeps_its_terms(
    ctx: ExecuteTrade,
    bot_id_hash: [u8; 32],
    side: u8,
    amount_in: u64,
    min_out: u64,
    derived_meta: Option<(Seq<u8>, u8)>,
    derived_vault: Option<(Seq<u8>, u8)>,
    derived_ata: Option<(Seq<u8>, u8)>,
    amm_program: Option<Seq<u8>>,
    event: Event,
)
    requires
        ctx.outcome(bot_id_hash, side, amount_in, min_out, derived_meta, derived_vault, derived_ata, amm_program) is Ok,
    ensures
        ({
            let trade = ctx.outcome(bot_id_hash, side, amount_in, min_out, derived_meta, derived_vault, derived_ata, amm_program)->Ok_0;
            &&& trade.well_formed()
            &&& trade.stage == Stage::Uninitialized
            &&& trade.wrap_lamports == wrap_funding(trade.side, amount_in, ctx.rent_min)
            &&& trade.side is Buy ==> trade.wrap_lamports == ctx.rent_min + amount_in
            &&& trade.side is Sell ==> trade.wrap_lamports == ctx.rent_min
            &&& trade.after_event(event) is Ok ==> trade.after_event(event)->Ok_0.well_formed()
                && trade.after_event(event)->Ok_0 == (Trade { stage: trade.after_event(event)->Ok_0.stage, ..trade })
        }),
{
}

/// The swap's output is held against the minimum: a trade passes the swap
/// stage exactly when what arrived is at least the minimum output, and
/// fails for slippage otherwise.
pub proof fn slippage_is_enforced(trade: Trade, balance: u64)
    requires
        trade.stage == Stage::Synced,
    ensures
        received(trade.before, balance) >= trade.min_out
            ==> trade.after_event(Event::Swapped { balance }) == Ok::<Trade, SolscopeError>(Trade { stage: Stage::PostSwap, ..trade }),
        received(trade.before, balance) < trade.min_out
            ==> trade.after_event(Event::Swapped { balance }) == Err::<Trade, SolscopeError>(SolscopeError::SlippageExceeded),
{
}

/// Where the swap adds `output` to the receiving balance, the trade goes on
/// exactly when `output` is at least the minimum, and then only its stage
/// changes; otherwise it fails for slippage.
pub proof fn swap_output_decides(trade: Trade, output: u64)
    requires
        trade.stage == Stage::Synced,
        trade.before + output <= u64::MAX,
    ensures
        ({
            let after = trade.after_event(Event::Swapped { balance: (trade.before + output) as u64 });
            &&& received(trade.before, (trade.before + output) as u64) == output
            &&& output >= trade.min_out ==> after == Ok::<Trade, SolscopeError>(Trade { stage: Stage::PostSwap, ..trade })
            &&& output < trade.min_out ==> after == Err::<Trade, SolscopeError>(SolscopeError::SlippageExceeded)
        }),
{
}

/// A trade that the host answers in order runs through all its stages and
/// ends closed, unchanged but for the stage, provided the swap delivers
/// the minimum output.
pub proof fn trade_runs_in_a_line(trade: Trade, balance: u64)
    requires
        trade.stage == Stage::Uninitialized,
        received(trade.before, balance) >= trade.min_out,
    ensures
        ({
            let created = trade.after_event(Event::WrapCreated);
            let synced = created->Ok_0.after_event(Event::WrapSynced);
            let swapped = synced->Ok_0.after_event(Event::Swapped { balance });
            let closed = swapped->Ok_0.after_event(Event::WrapClosed);
            &&& created is Ok && synced is Ok && swapped is Ok
            &&& closed == Ok::<Trade, SolscopeError>(Trade { stage: Stage::Closed, ..trade })
        }),
{
}

/// Creating the wrap account and closing it again leaves the vault with
/// what it held before, less what the swap took out of the wrap account
/// and plus what it put in; the rent deposit comes back in full, and no
/// wrap account is left.
pub proof fn wrap_round_trip(ledger: WrapLedger, lamports: u64, after_swap: u64)
    requires
        ledger.wrap is None,
        ledger.vault >= lamports,
        ledger.vault - lamports + after_swap <= u64::MAX,
    ensures
        ({
            let opened = ledger.opened(lamports);
            let swapped = WrapLedger { vault: opened->Ok_0.vault, wrap: Some(after_swap) };
            &&& opened == Ok::<WrapLedger, HostError>(WrapLedger { vault: (ledger.vault - lamports) as u64, wrap: Some(lamports) })
            &&& swapped.closed() == Ok::<WrapLedger, HostError>(
                WrapLedger { vault: (ledger.vault - lamports + after_swap) as u64, wrap: None },
            )
            &&& after_swap == lamports ==> swapped.closed() == Ok::<WrapLedger, HostError>(ledger)
        }),
{
}

} // verus!
