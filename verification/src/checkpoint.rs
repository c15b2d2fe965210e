//! The emission checkpoint: the one persistent record of a deployment.

use vstd::prelude::*;
use crate::allocation::{standard_buckets, AllocationTable, Bucket, SHARE_DENOMINATOR};
use crate::halving::HalvingSchedule;
use crate::identity::Identity;

verus! {

/// Decimals of the token: one token is `10^9` base units.
pub const DECIMALS: u8 = 9;

/// Seconds per block.
pub const BLOCK_GEN_RATE: u8 = 3;

/// Cap on the issued supply, in base units: 210 million tokens.
pub const MAX_TOTAL_SUPPLY: u64 = 210_000_000_000_000_000;

/// Base units minted per block at the fixed rate: 3 tokens.
pub const COIN_NUM_PER_BLOCK: u64 = 3_000_000_000;

/// Schema tag of a checkpoint.
pub const CONFIG_MAGIC: u32 = 0x544b4654;

/// The persistent state of the emission: how far blocks have been accounted
/// for, at which rate they are paid, and the identities fixed at creation.
#[derive(Clone, Copy, Debug, PartialEq, Eq)]
pub struct ConfigAccount {
    /// Schema tag; `CONFIG_MAGIC` in every checkpoint this library creates.
    pub magic: u32,
    /// Auxiliary value from which the signing capability is derived.
    pub bump: u8,
    /// Blocks accounted for so far.
    pub current_block_height: u64,
    /// Time up to which whole blocks have been accounted for.
    pub last_gen_block_timestamp: i64,
    /// The halving schedule, where the deployment has one; without it every
    /// block pays `COIN_NUM_PER_BLOCK`.
    pub halving: Option<HalvingSchedule>,
    /// The token mint.
    pub mint: Identity,
    /// The authority that signs the mints.
    pub mint_authority: Identity,
    pub receiver_arena: Identity,
    pub receiver_nft_mining: Identity,
    pub receiver_liquidity_mining: Identity,
    pub receiver_marketing: Identity,
    pub receiver_ecosystem: Identity,
    pub receiver_gyc_staking: Identity,
}

impl ConfigAccount {
    /// Base units a block pays at the current rate.
    pub open spec fn spec_reward_per_block(&self) -> u64 {
        match self.halving {
            Some(schedule) => schedule.reward_per_block,
            None => COIN_NUM_PER_BLOCK,
        }
    }

    /// The buckets among which an emission is split.
    pub open spec fn buckets(self) -> Seq<Bucket> {
        standard_buckets(
            self.receiver_arena,
            self.receiver_nft_mining,
            self.receiver_liquidity_mining,
            self.receiver_marketing,
            self.receiver_ecosystem,
            self.receiver_gyc_staking,
        )
    }

    /// Base units a block pays at the current rate.
    #[verifier::when_used_as_spec(spec_reward_per_block)]
    pub fn reward_per_block(&self) -> (reward: u64)
        ensures
            reward == self.spec_reward_per_block(),
    {
        match self.halving {
            Some(schedule) => schedule.reward_per_block,
            None => COIN_NUM_PER_BLOCK,
        }
    }

    /// The allocation table of the checkpoint: the standard shares, each
    /// paid to the recipient recorded at creation.
    pub fn allocation_table(&self) -> (table: AllocationTable)
        ensures
            table@ == self.buckets(),
            table.spec_denominator() == SHARE_DENOMINATOR,
    {
        AllocationTable::standard(
            self.receiver_arena,
            self.receiver_nft_mining,
            self.receiver_liquidity_mining,
            self.receiver_marketing,
            self.receiver_ecosystem,
            self.receiver_gyc_staking,
        )
    }
}

impl Default for ConfigAccount {
    /// The all-zero record, which carries no schema tag.
    fn default() -> (config: ConfigAccount)
        ensures
            config.magic == 0,
            config.bump == 0,
            config.current_block_height == 0,
            config.last_gen_block_timestamp == 0,
            config.halving is None,
            config.mint@ == Seq::new(32, |i: int| 0u8),
            config.mint_authority == config.mint,
            config.receiver_arena == config.mint,
            config.receiver_nft_mining == config.mint,
            config.receiver_liquidity_mining == config.mint,
            config.receiver_marketing == config.mint,
            config.receiver_ecosystem == config.mint,
            config.receiver_gyc_staking == config.mint,
    {
        let zero = Identity { bytes: [0u8;32] };
        assert(zero@ =~= Seq::new(32, |i: int| 0u8));
        ConfigAccount {
            magic: 0,
            bump: 0,
            current_block_height: 0,
            last_gen_block_timestamp: 0,
            halving: None,
            mint: zero,
            mint_authority: zero,
            receiver_arena: zero,
            receiver_nft_mining: zero,
            receiver_liquidity_mining: zero,
            receiver_marketing: zero,
            receiver_ecosystem: zero,
            receiver_gyc_staking: zero,
        }
    }
}

} // verus!
