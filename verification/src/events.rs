//! The records published after a successful operation.

use vstd::prelude::*;
use crate::identity::Identity;

verus! {

/// Published once, when the checkpoint is created.
#[derive(Debug, PartialEq, Eq)]
pub struct InitializeEvent {
    /// Code of the status, zero for success.
    pub status_code: u64,
    /// Description of the status.
    pub status_desc: String,
    pub mint: Identity,
    pub mint_authority: Identity,
    pub receiver_arena: Identity,
    pub receiver_nft_mining: Identity,
    pub receiver_liquidity_mining: Identity,
    pub receiver_marketing: Identity,
    pub receiver_ecosystem: Identity,
    pub receiver_gyc_staking: Identity,
    /// Block height of the new checkpoint.
    pub current_block_height: u64,
    /// Checkpoint time of the new checkpoint.
    pub last_gen_block_timestamp: i64,
    /// When the event took place.
    pub timestamp: i64,
}

/// Published after each emission.
#[derive(Debug, PartialEq, Eq)]
pub struct DripEvent {
    /// Code of the status, zero for success.
    pub status_code: u64,
    /// Description of the status.
    pub status_desc: String,
    pub mint: Identity,
    pub mint_authority: Identity,
    pub receiver_arena: Identity,
    pub receiver_nft_mining: Identity,
    pub receiver_liquidity_mining: Identity,
    pub receiver_marketing: Identity,
    pub receiver_ecosystem: Identity,
    pub receiver_gyc_staking: Identity,
    /// Block height after the emission.
    pub current_block_height: u64,
    /// Checkpoint time after the emission.
    pub last_gen_block_timestamp: i64,
    pub receiver_arena_amount: u64,
    pub receiver_nft_mining_amount: u64,
    pub receiver_liquidity_mining_amount: u64,
    pub receiver_marketing_amount: u64,
    pub receiver_ecosystem_amount: u64,
    pub receiver_gyc_staking_amount: u64,
    /// Seconds between the previous checkpoint and the call.
    pub intervals: i64,
    /// Issued supply once the amounts above are minted.
    pub supply: u64,
    /// When the event took place.
    pub timestamp: i64,
}

} // verus!
