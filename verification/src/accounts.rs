//! What the operations read of the ledger and of the clock.
//!
//! The caller gathers these values from the hosting runtime and hands them
//! over as plain data, so that every decision is a function of its inputs.

use vstd::prelude::*;
use crate::allocation::{bucket_amount, total_allocated, SHARE_DENOMINATOR};
use crate::checkpoint::{
    ConfigAccount,
    BLOCK_GEN_RATE,
    COIN_NUM_PER_BLOCK,
    CONFIG_MAGIC,
    MAX_TOTAL_SUPPLY,
};
use crate::events::{DripEvent, InitializeEvent};
use crate::halving::{fixed_distribution, HalvingSchedule};
use crate::identity::Identity;
use crate::interval::{blocks_in, interval_status, remainder_of};
use crate::status::StatusInfo;
use crate::supply::{check_supply_cap, supply_guard, SupplyGuard};

verus! {

/// The clock of the hosting runtime.
#[derive(Clone, Copy, Debug, PartialEq, Eq)]
pub struct Clock {
    /// Current time, in seconds.
    pub unix_timestamp: i64,
}

/// A recipient account as the ledger shows it at initialization.
#[derive(Clone, Copy, Debug, PartialEq, Eq)]
pub struct RecipientAccount {
    pub key: Identity,
    /// Whether the account holds no data, that is, has not been provisioned.
    pub data_is_empty: bool,
}

/// The token mint as the ledger shows it.
#[derive(Clone, Copy, Debug, PartialEq, Eq)]
pub struct MintAccount {
    pub key: Identity,
    /// Base units issued so far.
    pub supply: u64,
    /// Whether the mint no longer has a minting authority.
    pub authority_revoked: bool,
}

/// Inputs of `initialize`.
#[derive(Clone, Copy, Debug, PartialEq, Eq)]
pub struct Initialize {
    pub mint: Identity,
    pub mint_authority: Identity,
    pub receiver_arena: RecipientAccount,
    pub receiver_nft_mining: RecipientAccount,
    pub receiver_liquidity_mining: RecipientAccount,
    pub receiver_marketing: RecipientAccount,
    pub receiver_ecosystem: RecipientAccount,
    pub receiver_gyc_staking: RecipientAccount,
    pub clock: Clock,
}

/// Inputs of `drip`.
#[derive(Clone, Copy, Debug, PartialEq, Eq)]
pub struct Drip {
    /// The checkpoint as persisted by the previous operation.
    pub config_account: ConfigAccount,
    pub mint: MintAccount,
    pub mint_authority: Identity,
    pub receiver_arena: Identity,
    pub receiver_nft_mining: Identity,
    pub receiver_liquidity_mining: Identity,
    pub receiver_marketing: Identity,
    pub receiver_ecosystem: Identity,
    pub receiver_gyc_staking: Identity,
    pub clock: Clock,
}

impl Initialize {
    /// Whether some recipient account has not been provisioned.
    pub open spec fn has_unprovisioned_recipient(self) -> bool {
        ||| self.receiver_arena.data_is_empty
        ||| self.receiver_nft_mining.data_is_empty
        ||| self.receiver_liquidity_mining.data_is_empty
        ||| self.receiver_marketing.data_is_empty
        ||| self.receiver_ecosystem.data_is_empty
        ||| self.receiver_gyc_staking.data_is_empty
    }

    /// The checkpoint that initialization creates: no block accounted for,
    /// the clock's time as checkpoint time, and the identities as supplied.
    pub open spec fn initial_config(self, bump: u8, halving: Option<HalvingSchedule>) -> ConfigAccount {
        ConfigAccount {
            magic: CONFIG_MAGIC,
            bump,
            current_block_height: 0,
            last_gen_block_timestamp: self.clock.unix_timestamp,
            halving,
            mint: self.mint,
            mint_authority: self.mint_authority,
            receiver_arena: self.receiver_arena.key,
            receiver_nft_mining: self.receiver_nft_mining.key,
            receiver_liquidity_mining: self.receiver_liquidity_mining.key,
            receiver_marketing: self.receiver_marketing.key,
            receiver_ecosystem: self.receiver_ecosystem.key,
            receiver_gyc_staking: self.receiver_gyc_staking.key,
        }
    }

    /// Whether `event` is the record of this initialization.
    pub open spec fn recorded_by(self, event: InitializeEvent) -> bool {
        &&& event.status_code == StatusInfo::Success.spec_status_code()
        &&& event.status_desc@ == StatusInfo::Success.spec_message()
        &&& event.mint == self.mint
        &&& event.mint_authority == self.mint_authority
        &&& event.receiver_arena == self.receiver_arena.key
        &&& event.receiver_nft_mining == self.receiver_nft_mining.key
        &&& event.receiver_liquidity_mining == self.receiver_liquidity_mining.key
        &&& event.receiver_marketing == self.receiver_marketing.key
        &&& event.receiver_ecosystem == self.receiver_ecosystem.key
        &&& event.receiver_gyc_staking == self.receiver_gyc_staking.key
        &&& event.current_block_height == 0
        &&& event.last_gen_block_timestamp == self.clock.unix_timestamp
        &&& event.timestamp == self.clock.unix_timestamp
    }
}

impl Drip {
    /// Whether the supplied mint, authority and recipients are the ones
    /// recorded in the checkpoint.
    pub open spec fn identities_match(self) -> bool {
        let config = self.config_account;
        &&& config.mint == self.mint.key
        &&& config.mint_authority == self.mint_authority
        &&& config.receiver_arena == self.receiver_arena
        &&& config.receiver_nft_mining == self.receiver_nft_mining
        &&& config.receiver_liquidity_mining == self.receiver_liquidity_mining
        &&& config.receiver_marketing == self.receiver_marketing
        &&& config.receiver_ecosystem == self.receiver_ecosystem
        &&& config.receiver_gyc_staking == self.receiver_gyc_staking
    }

    /// Whether the supplied identities are those of the checkpoint, and the
    /// checkpoint carries the schema tag. The mint is tested first, then the
    /// authority, the recipients and the tag.
    pub open spec fn validation_status(self) -> StatusInfo {
        let config = self.config_account;
        if config.mint != self.mint.key {
            StatusInfo::InvalidTokenMint
        } else if config.mint_authority != self.mint_authority {
            StatusInfo::InvalidTokenAuthority
        } else if config.receiver_arena != self.receiver_arena || config.receiver_nft_mining
            != self.receiver_nft_mining || config.receiver_liquidity_mining
            != self.receiver_liquidity_mining || config.receiver_marketing
            != self.receiver_marketing || config.receiver_ecosystem != self.receiver_ecosystem
            || config.receiver_gyc_staking != self.receiver_gyc_staking {
            StatusInfo::InvalidReceiverTokenAccount
        } else if config.magic != CONFIG_MAGIC {
            StatusInfo::InvalidMagic
        } else {
            StatusInfo::Success
        }
    }

    /// The verdict of the supply cap guard. A deployment with a halving
    /// schedule revokes the minting authority at the cap.
    pub open spec fn guard(self) -> SupplyGuard {
        supply_guard(
            self.mint.supply,
            MAX_TOTAL_SUPPLY,
            self.config_account.halving is Some,
            self.mint.authority_revoked,
        )
    }

    /// Whether the call is the one that finds the cap reached while the
    /// minting authority still stands, in a deployment that revokes at the
    /// cap: the caller is then to revoke the authority.
    pub open spec fn revokes(self) -> bool {
        &&& self.validation_status() == StatusInfo::Success
        &&& self.guard() == (SupplyGuard::Capped { revoke: true })
    }

    /// Seconds since the checkpoint.
    pub open spec fn elapsed(self) -> int {
        self.clock.unix_timestamp - self.config_account.last_gen_block_timestamp
    }

    /// Whether and why the clock is refused.
    pub open spec fn clock_status(self) -> StatusInfo {
        interval_status(
            self.clock.unix_timestamp as int,
            self.config_account.last_gen_block_timestamp as int,
            BLOCK_GEN_RATE as int,
        )
    }

    /// Whole blocks since the checkpoint.
    pub open spec fn blocks_elapsed(self) -> int {
        blocks_in(self.elapsed(), BLOCK_GEN_RATE as int)
    }

    /// Seconds carried over to the next call.
    pub open spec fn remainder(self) -> int {
        remainder_of(self.elapsed(), BLOCK_GEN_RATE as int)
    }

    /// Base units that the elapsed blocks mint.
    pub open spec fn distribution_amount(self) -> int {
        match self.config_account.halving {
            Some(schedule) => schedule.distribution(
                self.config_account.current_block_height as int,
                self.blocks_elapsed(),
            ),
            None => fixed_distribution(self.blocks_elapsed(), COIN_NUM_PER_BLOCK as int),
        }
    }

    /// Whether the new height and the amount stay within 64 bits.
    pub open spec fn emission_fits(self) -> bool {
        match self.config_account.halving {
            Some(schedule) => schedule.fits(
                self.config_account.current_block_height as int,
                self.blocks_elapsed(),
            ),
            None => {
                &&& self.config_account.current_block_height + self.blocks_elapsed() <= u64::MAX
                &&& self.distribution_amount() <= u64::MAX
            },
        }
    }

    /// Base units handed to bucket `index` of the table.
    pub open spec fn bucket_portion(self, index: int) -> int {
        bucket_amount(
            self.distribution_amount(),
            self.config_account.buckets()[index].share as int,
            SHARE_DENOMINATOR as int,
        )
    }

    /// Base units handed out over all buckets.
    pub open spec fn minted(self) -> int {
        total_allocated(
            self.config_account.buckets(),
            self.distribution_amount(),
            SHARE_DENOMINATOR as int,
        )
    }

    /// Issued supply once the buckets are paid.
    pub open spec fn resulting_supply(self) -> int {
        self.mint.supply + self.minted()
    }

    /// Whether and why the emission is refused; `Success` when it is not.
    ///
    /// The identities are tested first, then the supply cap, the clock, and
    /// last the arithmetic.
    pub open spec fn status(self) -> StatusInfo {
        if self.validation_status() != StatusInfo::Success {
            self.validation_status()
        } else if self.guard() != SupplyGuard::Open {
            StatusInfo::TotalSupplyLimit
        } else if self.clock_status() != StatusInfo::Success {
            self.clock_status()
        } else if !self.emission_fits() || self.resulting_supply() > u64::MAX {
            StatusInfo::ArithmeticOverflow
        } else {
            StatusInfo::Success
        }
    }

    /// Whether `next` is the checkpoint that the emission leaves: the height
    /// grown by the elapsed blocks, the checkpoint time at the clock's time
    /// less the remainder, the schedule advanced, and all else as before.
    pub open spec fn leaves(self, next: ConfigAccount) -> bool {
        let config = self.config_account;
        &&& next.magic == config.magic
        &&& next.bump == config.bump
        &&& next.mint == config.mint
        &&& next.mint_authority == config.mint_authority
        &&& next.receiver_arena == config.receiver_arena
        &&& next.receiver_nft_mining == config.receiver_nft_mining
        &&& next.receiver_liquidity_mining == config.receiver_liquidity_mining
        &&& next.receiver_marketing == config.receiver_marketing
        &&& next.receiver_ecosystem == config.receiver_ecosystem
        &&& next.receiver_gyc_staking == config.receiver_gyc_staking
        &&& next.current_block_height == config.current_block_height + self.blocks_elapsed()
        &&& next.last_gen_block_timestamp == self.clock.unix_timestamp - self.remainder()
        &&& match config.halving {
            Some(schedule) => {
                &&& next.halving matches Some(after)
                &&& after.reward_per_block == schedule.next_reward(
                    config.current_block_height as int,
                    self.blocks_elapsed(),
                )
                &&& after.next_halving_threshold == schedule.next_threshold(
                    config.current_block_height as int,
                    self.blocks_elapsed(),
                )
            },
            None => next.halving is None,
        }
    }

    /// Whether `event` is the record of the emission.
    pub open spec fn recorded_by(self, event: DripEvent) -> bool {
        &&& event.status_code == StatusInfo::Success.spec_status_code()
        &&& event.status_desc@ == StatusInfo::Success.spec_message()
        &&& event.mint == self.mint.key
        &&& event.mint_authority == self.mint_authority
        &&& event.receiver_arena == self.receiver_arena
        &&& event.receiver_nft_mining == self.receiver_nft_mining
        &&& event.receiver_liquidity_mining == self.receiver_liquidity_mining
        &&& event.receiver_marketing == self.receiver_marketing
        &&& event.receiver_ecosystem == self.receiver_ecosystem
        &&& event.receiver_gyc_staking == self.receiver_gyc_staking
        &&& event.current_block_height == self.config_account.current_block_height
            + self.blocks_elapsed()
        &&& event.last_gen_block_timestamp == self.clock.unix_timestamp - self.remainder()
        &&& event.receiver_arena_amount == self.bucket_portion(0)
        &&& event.receiver_nft_mining_amount == self.bucket_portion(1)
        &&& event.receiver_liquidity_mining_amount == self.bucket_portion(2)
        &&& event.receiver_marketing_amount == self.bucket_portion(3)
        &&& event.receiver_ecosystem_amount == self.bucket_portion(4)
        &&& event.receiver_gyc_staking_amount == self.bucket_portion(5)
        &&& event.intervals == self.elapsed()
        &&& event.supply == self.resulting_supply()
        &&& event.timestamp == self.clock.unix_timestamp
    }

    /// Tests the supplied identities against the checkpoint, and the
    /// checkpoint's schema tag.
    ///
    /// The call is accepted exactly when every identity is the recorded one
    /// and the tag is in place. A foreign identity is reported as a
    /// configuration mismatch, naming the first that differs.
    pub fn validate(&self) -> (r: Result<(), StatusInfo>)
        ensures
            match r {
                Ok(_) => self.validation_status() == StatusInfo::Success,
                Err(e) => e == self.validation_status() && e != StatusInfo::Success,
            },
            r is Ok <==> self.identities_match() && self.config_account.magic == CONFIG_MAGIC,
            (r matches Err(e) && e.is_configuration_mismatch()) <==> !self.identities_match(),
    {
        let config = &self.config_account;
        if config.mint != self.mint.key {
            return Err(StatusInfo::InvalidTokenMint);
        }
        if config.mint_authority != self.mint_authority {
            return Err(StatusInfo::InvalidTokenAuthority);
        }
        if config.receiver_arena != self.receiver_arena || config.receiver_nft_mining
            != self.receiver_nft_mining || config.receiver_liquidity_mining
            != self.receiver_liquidity_mining || config.receiver_marketing
            != self.receiver_marketing || config.receiver_ecosystem != self.receiver_ecosystem
            || config.receiver_gyc_staking != self.receiver_gyc_staking {
            return Err(StatusInfo::InvalidReceiverTokenAccount);
        }
        if config.magic != CONFIG_MAGIC {
            return Err(StatusInfo::InvalidMagic);
        }
        Ok(())
    }

    /// Tests the issued supply against the cap.
    pub fn supply_guard(&self) -> (guard: SupplyGuard)
        ensures
            guard == self.guard(),
    {
        check_supply_cap(
            self.mint.supply,
            MAX_TOTAL_SUPPLY,
            self.config_account.halving.is_some(),
            self.mint.authority_revoked,
        )
    }
}

} // verus!
