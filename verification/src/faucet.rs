//! The two operations of the faucet: creating the checkpoint, and the
//! catch-up emission for the blocks elapsed since it.
//!
//! Both are functions of their inputs. The caller persists the checkpoint
//! they return, carries out the mint orders and publishes the event.

use vstd::prelude::*;
use crate::accounts::{Drip, Initialize};
use crate::allocation::{fills, total_ordered, Distribution, MintOrder, SHARE_DENOMINATOR};
use crate::checkpoint::{
    ConfigAccount,
    BLOCK_GEN_RATE,
    COIN_NUM_PER_BLOCK,
    CONFIG_MAGIC,
    MAX_TOTAL_SUPPLY,
};
use crate::events::{DripEvent, InitializeEvent};
use crate::halving::{fixed_emission, HalvingSchedule};
use crate::interval::{lemma_whole_block_fits, measure_interval};
use crate::status::StatusInfo;
use crate::supply::SupplyGuard;

verus! {

/// What a successful emission asks of the caller.
#[derive(Debug)]
pub struct DripOutcome {
    /// The checkpoint to persist once the orders are carried out.
    pub config_account: ConfigAccount,
    /// One mint per bucket, in table order.
    pub orders: Vec<MintOrder>,
    /// The record to publish.
    pub event: DripEvent,
}

/// What a refused emission asks of the caller.
#[derive(Clone, Copy, Debug, PartialEq, Eq)]
pub struct DripRefusal {
    /// Why the emission is refused.
    pub status: StatusInfo,
    /// Whether the caller is to revoke the minting authority on the ledger.
    pub revoke_minting_authority: bool,
}

/// Creates the checkpoint of a deployment.
///
/// Fails when a recipient account has not been provisioned on the ledger.
/// With `halving`, blocks are paid by that schedule; without, at the fixed
/// rate.
pub fn initialize(ctx: &Initialize, bump: u8, halving: Option<HalvingSchedule>) -> (r: Result<
    (ConfigAccount, InitializeEvent),
    StatusInfo,
>)
    ensures
        match r {
            Ok((config, event)) => {
                &&& !ctx.has_unprovisioned_recipient()
                &&& config == ctx.initial_config(bump, halving)
                &&& ctx.recorded_by(event)
            },
            Err(e) => {
                &&& ctx.has_unprovisioned_recipient()
                &&& e == StatusInfo::NotInitializedAssociatedTokenAccount
            },
        },
{
    if ctx.receiver_arena.data_is_empty || ctx.receiver_nft_mining.data_is_empty
        || ctx.receiver_liquidity_mining.data_is_empty || ctx.receiver_marketing.data_is_empty
        || ctx.receiver_ecosystem.data_is_empty || ctx.receiver_gyc_staking.data_is_empty {
        return Err(StatusInfo::NotInitializedAssociatedTokenAccount);
    }
    let config = ConfigAccount {
        magic: CONFIG_MAGIC,
        bump,
        current_block_height: 0,
        last_gen_block_timestamp: ctx.clock.unix_timestamp,
        halving,
        mint: ctx.mint,
        mint_authority: ctx.mint_authority,
        receiver_arena: ctx.receiver_arena.key,
        receiver_nft_mining: ctx.receiver_nft_mining.key,
        receiver_liquidity_mining: ctx.receiver_liquidity_mining.key,
        receiver_marketing: ctx.receiver_marketing.key,
        receiver_ecosystem: ctx.receiver_ecosystem.key,
        receiver_gyc_staking: ctx.receiver_gyc_staking.key,
    };
    let event = InitializeEvent {
        status_code: StatusInfo::Success.status_code(),
        status_desc: StatusInfo::Success.message().to_owned(),
        mint: ctx.mint,
        mint_authority: ctx.mint_authority,
        receiver_arena: ctx.receiver_arena.key,
        receiver_nft_mining: ctx.receiver_nft_mining.key,
        receiver_liquidity_mining: ctx.receiver_liquidity_mining.key,
        receiver_marketing: ctx.receiver_marketing.key,
        receiver_ecosystem: ctx.receiver_ecosystem.key,
        receiver_gyc_staking: ctx.receiver_gyc_staking.key,
        current_block_height: config.current_block_height,
        last_gen_block_timestamp: config.last_gen_block_timestamp,
        timestamp: ctx.clock.unix_timestamp,
    };
    Ok((config, event))
}

/// Mints for every whole block elapsed since the checkpoint.
///
/// The call is refused, in this order, when a supplied identity is not the
/// one recorded, when the supply cap guard is closed, when the clock has not
/// advanced by a block period, and when a step of the arithmetic leaves 64
/// bits. Otherwise the elapsed blocks are paid by the schedule, the amount is
/// split by the allocation table, and the checkpoint advances by the blocks
/// accounted for. The amount is not clamped to what the cap leaves.
///
/// Nothing is handed out piecemeal: the orders are returned together, after
/// every test has passed. A deployment with a halving schedule has the
/// minting authority revoked by the first call that finds the cap reached.
pub fn drip(ctx: &Drip) -> (r: Result<DripOutcome, DripRefusal>)
    ensures
        match r {
            Ok(out) => {
                &&& ctx.status() == StatusInfo::Success
                &&& ctx.leaves(out.config_account)
                &&& out.orders@.len() == 6
                &&& forall|i: int|
                    0 <= i < 6 ==> fills(
                        #[trigger] out.orders@[i],
                        ctx.config_account.buckets()[i],
                        ctx.distribution_amount(),
                        SHARE_DENOMINATOR as int,
                    )
                &&& total_ordered(out.orders@) == ctx.minted()
                &&& ctx.minted() <= ctx.distribution_amount()
                &&& ctx.distribution_amount() - ctx.minted() < 6
                &&& ctx.recorded_by(out.event)
                &&& out.config_account.current_block_height
                    > ctx.config_account.current_block_height
                &&& ctx.config_account.last_gen_block_timestamp
                    < out.config_account.last_gen_block_timestamp <= ctx.clock.unix_timestamp
            },
            Err(refusal) => {
                &&& refusal.status == ctx.status()
                &&& refusal.status != StatusInfo::Success
                &&& refusal.revoke_minting_authority == ctx.revokes()
            },
        },
{
    match ctx.validate() {
        Ok(_) => {},
        Err(e) => {
            return Err(refuse(e));
        },
    }
    match ctx.supply_guard() {
        SupplyGuard::Open => {},
        SupplyGuard::Capped { revoke } => {
            return Err(
                DripRefusal {
                    status: StatusInfo::TotalSupplyLimit,
                    revoke_minting_authority: revoke,
                },
            );
        },
    }
    let config = &ctx.config_account;
    let interval = match measure_interval(
        ctx.clock.unix_timestamp,
        config.last_gen_block_timestamp,
        BLOCK_GEN_RATE as u64,
    ) {
        Ok(interval) => interval,
        Err(e) => {
            return Err(refuse(e));
        },
    };
    let distribution_amount: u64;
    let block_height: u64;
    let halving: Option<HalvingSchedule>;
    match config.halving {
        Some(schedule) => {
            match schedule.advance(config.current_block_height, interval.blocks_elapsed) {
                Ok(emission) => {
                    distribution_amount = emission.distribution_amount;
                    block_height = config.current_block_height + interval.blocks_elapsed;
                    halving = Some(emission.schedule);
                },
                Err(e) => {
                    return Err(refuse(e));
                },
            }
        },
        None => {
            match fixed_emission(interval.blocks_elapsed, COIN_NUM_PER_BLOCK) {
                Ok(amount) => {
                    distribution_amount = amount;
                },
                Err(e) => {
                    return Err(refuse(e));
                },
            }
            match config.current_block_height.checked_add(interval.blocks_elapsed) {
                Some(height) => {
                    block_height = height;
                },
                None => {
                    return Err(refuse(StatusInfo::ArithmeticOverflow));
                },
            }
            halving = None;
        },
    }
    let table = config.allocation_table();
    let Distribution { orders, total } = table.distribute(distribution_amount);
    let supply: u64 = match ctx.mint.supply.checked_add(total) {
        Some(supply) => supply,
        None => {
            return Err(refuse(StatusInfo::ArithmeticOverflow));
        },
    };
    let next = ConfigAccount {
        magic: config.magic,
        bump: config.bump,
        current_block_height: block_height,
        last_gen_block_timestamp: interval.checkpoint_time,
        halving,
        mint: config.mint,
        mint_authority: config.mint_authority,
        receiver_arena: config.receiver_arena,
        receiver_nft_mining: config.receiver_nft_mining,
        receiver_liquidity_mining: config.receiver_liquidity_mining,
        receiver_marketing: config.receiver_marketing,
        receiver_ecosystem: config.receiver_ecosystem,
        receiver_gyc_staking: config.receiver_gyc_staking,
    };
    let event = DripEvent {
        status_code: StatusInfo::Success.status_code(),
        status_desc: StatusInfo::Success.message().to_owned(),
        mint: ctx.mint.key,
        mint_authority: ctx.mint_authority,
        receiver_arena: ctx.receiver_arena,
        receiver_nft_mining: ctx.receiver_nft_mining,
        receiver_liquidity_mining: ctx.receiver_liquidity_mining,
        receiver_marketing: ctx.receiver_marketing,
        receiver_ecosystem: ctx.receiver_ecosystem,
        receiver_gyc_staking: ctx.receiver_gyc_staking,
        current_block_height: block_height,
        last_gen_block_timestamp: interval.checkpoint_time,
        receiver_arena_amount: orders[0].amount,
        receiver_nft_mining_amount: orders[1].amount,
        receiver_liquidity_mining_amount: orders[2].amount,
        receiver_marketing_amount: orders[3].amount,
        receiver_ecosystem_amount: orders[4].amount,
        receiver_gyc_staking_amount: orders[5].amount,
        intervals: interval.elapsed,
        supply,
        timestamp: ctx.clock.unix_timestamp,
    };
    Ok(DripOutcome { config_account: next, orders, event })
}

/// A refusal that asks nothing of the caller.
fn refuse(status: StatusInfo) -> (refusal: DripRefusal)
    ensures
        refusal.status == status,
        !refusal.revoke_minting_authority,
{
    DripRefusal { status, revoke_minting_authority: false }
}

/// An accepted emission moves the checkpoint forward by exactly the blocks it
/// accounts for: the height grows by at least one block, the checkpoint time
/// by that many block periods, and the checkpoint time never passes the
/// clock. The seconds that do not fill a block stay ahead of the checkpoint
/// for the next call.
pub proof fn lemma_emission_advances_checkpoint(ctx: Drip, next: ConfigAccount)
    requires
        ctx.status() == StatusInfo::Success,
        ctx.leaves(next),
    ensures
        ctx.blocks_elapsed() >= 1,
        next.current_block_height == ctx.config_account.current_block_height
            + ctx.blocks_elapsed(),
        next.last_gen_block_timestamp == ctx.config_account.last_gen_block_timestamp
            + ctx.blocks_elapsed() * BLOCK_GEN_RATE,
        ctx.config_account.last_gen_block_timestamp < next.last_gen_block_timestamp
            <= ctx.clock.unix_timestamp,
        ctx.clock.unix_timestamp - next.last_gen_block_timestamp == ctx.remainder(),
        0 <= ctx.remainder() < BLOCK_GEN_RATE,
{
    lemma_whole_block_fits(ctx.elapsed(), BLOCK_GEN_RATE as int);
}

/// No second is lost, however the calls are spaced. While the checkpoint
/// time stands `current_block_height` block periods after some origin, the
/// height after an accepted emission is the number of whole periods between
/// the origin and the clock.
pub proof fn lemma_height_follows_clock(ctx: Drip, next: ConfigAccount, origin: int)
    requires
        ctx.status() == StatusInfo::Success,
        ctx.leaves(next),
        ctx.config_account.last_gen_block_timestamp == origin
            + ctx.config_account.current_block_height * BLOCK_GEN_RATE,
    ensures
        next.last_gen_block_timestamp == origin + next.current_block_height * BLOCK_GEN_RATE,
        next.current_block_height == (ctx.clock.unix_timestamp - origin) / (BLOCK_GEN_RATE as int),
{
    lemma_whole_block_fits(ctx.elapsed(), BLOCK_GEN_RATE as int);
}

/// A call that follows an accepted emission before a whole block period has
/// passed since the new checkpoint is refused for want of interval. Being
/// refused, it returns no checkpoint: what is persisted stays as it was.
///
/// The period is measured from the checkpoint that the first call left, that
/// is from the first call's clock less the seconds it carried over.
pub proof fn lemma_early_retry_is_refused(first: Drip, second: Drip)
    requires
        first.status() == StatusInfo::Success,
        first.leaves(second.config_account),
        second.validation_status() == StatusInfo::Success,
        second.guard() == SupplyGuard::Open,
        0 < second.clock.unix_timestamp - (first.clock.unix_timestamp - first.remainder())
            < BLOCK_GEN_RATE,
    ensures
        second.status() == StatusInfo::InsufficientIntervalError,
{
}

/// The cap is tested against the supply at entry and the amount is not
/// clamped: an emission accepted below the cap may carry the supply to the
/// cap or beyond, and the call that follows it is then refused.
pub proof fn lemma_overshoot_closes_the_cap(first: Drip, second: Drip)
    requires
        first.status() == StatusInfo::Success,
        first.resulting_supply() >= MAX_TOTAL_SUPPLY,
        first.leaves(second.config_account),
        second.validation_status() == StatusInfo::Success,
        second.mint.supply == first.resulting_supply(),
    ensures
        first.mint.supply < MAX_TOTAL_SUPPLY,
        second.status() == StatusInfo::TotalSupplyLimit,
        second.revokes() <==> second.config_account.halving is Some
            && !second.mint.authority_revoked,
{
}

/// Under a halving schedule a revoked minting authority closes the faucet for
/// good: every later call is refused, whatever supply the ledger reports, and
/// none asks for the revocation again.
pub proof fn lemma_revocation_is_final(ctx: Drip)
    requires
        ctx.validation_status() == StatusInfo::Success,
        ctx.config_account.halving is Some,
        ctx.mint.authority_revoked,
    ensures
        ctx.status() == StatusInfo::TotalSupplyLimit,
        !ctx.revokes(),
{
}

} // verus!
