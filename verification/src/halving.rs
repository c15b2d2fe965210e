//! Reward schedule: how much a span of blocks mints, at a fixed rate or at a
//! rate that halves once the block height passes a threshold.
//!
//! A call resolves at most one halving. A span long enough to pass the
//! doubled threshold as well is still split once, at the threshold in force
//! when the call began; the height then lies beyond the new threshold, and
//! the following call finds a negative count of pre-halving blocks, which it
//! reports as an arithmetic overflow.

use vstd::prelude::*;
use crate::status::StatusInfo;

verus! {

/// The per-block reward and the block height past which it halves.
#[derive(Clone, Copy, Debug, PartialEq, Eq)]
pub struct HalvingSchedule {
    /// Base units minted per block at the current rate.
    pub reward_per_block: u64,
    /// Blocks up to and including this height are paid at the current rate.
    pub next_halving_threshold: u64,
}

/// What a span of blocks mints under a halving schedule.
#[derive(Clone, Copy, Debug, PartialEq, Eq)]
pub struct Emission {
    /// Base units to distribute for the span.
    pub distribution_amount: u64,
    /// Blocks of the span paid at the rate in force when the call began.
    pub pre_halving_blocks: u64,
    /// Blocks of the span paid at the halved rate.
    pub post_halving_blocks: u64,
    /// The schedule once the span is accounted for.
    pub schedule: HalvingSchedule,
}

/// Base units minted by `blocks_elapsed` blocks at a constant rate.
pub open spec fn fixed_distribution(blocks_elapsed: int, reward_per_block: int) -> int {
    blocks_elapsed * reward_per_block
}

impl HalvingSchedule {
    /// Whether the span carries the height strictly past the threshold. A
    /// span that ends exactly on the threshold does not.
    pub open spec fn crosses(self, block_height: int, blocks_elapsed: int) -> bool {
        block_height + blocks_elapsed > self.next_halving_threshold
    }

    /// Blocks of the span that lie past the threshold.
    pub open spec fn post_blocks(self, block_height: int, blocks_elapsed: int) -> int {
        if self.crosses(block_height, blocks_elapsed) {
            block_height + blocks_elapsed - self.next_halving_threshold
        } else {
            0
        }
    }

    /// Blocks of the span that lie at or before the threshold.
    pub open spec fn pre_blocks(self, block_height: int, blocks_elapsed: int) -> int {
        blocks_elapsed - self.post_blocks(block_height, blocks_elapsed)
    }

    /// The rate after one halving, truncated.
    pub open spec fn halved_reward(self) -> int {
        self.reward_per_block as int / 2
    }

    /// Base units minted by the span.
    pub open spec fn distribution(self, block_height: int, blocks_elapsed: int) -> int {
        self.pre_blocks(block_height, blocks_elapsed) * self.reward_per_block
            + self.post_blocks(block_height, blocks_elapsed) * self.halved_reward()
    }

    /// The rate in force after the span.
    pub open spec fn next_reward(self, block_height: int, blocks_elapsed: int) -> int {
        if self.crosses(block_height, blocks_elapsed) {
            self.halved_reward()
        } else {
            self.reward_per_block as int
        }
    }

    /// The threshold in force after the span.
    pub open spec fn next_threshold(self, block_height: int, blocks_elapsed: int) -> int {
        if self.crosses(block_height, blocks_elapsed) {
            2 * self.next_halving_threshold
        } else {
            self.next_halving_threshold as int
        }
    }

    /// Whether every arithmetic step of the span stays within 64 bits: the
    /// projected height, the count of pre-halving blocks (which must not be
    /// negative), the amount, and the doubled threshold.
    pub open spec fn fits(self, block_height: int, blocks_elapsed: int) -> bool {
        &&& block_height + blocks_elapsed <= u64::MAX
        &&& self.pre_blocks(block_height, blocks_elapsed) >= 0
        &&& self.distribution(block_height, blocks_elapsed) <= u64::MAX
        &&& self.next_threshold(block_height, blocks_elapsed) <= u64::MAX
    }

    /// Accounts for `blocks_elapsed` blocks on top of `block_height`.
    ///
    /// While the projected height does not exceed the threshold, every block
    /// is paid at the current rate. Past it, the blocks beyond the threshold
    /// are paid at half the rate, the rate is halved and the threshold doubled.
    pub fn advance(&self, block_height: u64, blocks_elapsed: u64) -> (r: Result<
        Emission,
        StatusInfo,
    >)
        ensures
            match r {
                Ok(e) => {
                    &&& self.fits(block_height as int, blocks_elapsed as int)
                    &&& e.distribution_amount == self.distribution(
                        block_height as int,
                        blocks_elapsed as int,
                    )
                    &&& e.pre_halving_blocks == self.pre_blocks(
                        block_height as int,
                        blocks_elapsed as int,
                    )
                    &&& e.post_halving_blocks == self.post_blocks(
                        block_height as int,
                        blocks_elapsed as int,
                    )
                    &&& e.schedule.reward_per_block == self.next_reward(
                        block_height as int,
                        blocks_elapsed as int,
                    )
                    &&& e.schedule.next_halving_threshold == self.next_threshold(
                        block_height as int,
                        blocks_elapsed as int,
                    )
                },
                Err(e) => {
                    &&& !self.fits(block_height as int, blocks_elapsed as int)
                    &&& e == StatusInfo::ArithmeticOverflow
                },
            },
    {
        let projected: u64 = match block_height.checked_add(blocks_elapsed) {
            Some(p) => p,
            None => {
                return Err(StatusInfo::ArithmeticOverflow);
            },
        };
        if projected <= self.next_halving_threshold {
            return match blocks_elapsed.checked_mul(self.reward_per_block) {
                Some(amount) => Ok(
                    Emission {
                        distribution_amount: amount,
                        pre_halving_blocks: blocks_elapsed,
                        post_halving_blocks: 0,
                        schedule: *self,
                    },
                ),
                None => Err(StatusInfo::ArithmeticOverflow),
            };
        }
        let post: u64 = projected - self.next_halving_threshold;
        let pre: u64 = match blocks_elapsed.checked_sub(post) {
            Some(p) => p,
            None => {
                return Err(StatusInfo::ArithmeticOverflow);
            },
        };
        let halved: u64 = self.reward_per_block / 2;
        let pre_amount: u64 = match pre.checked_mul(self.reward_per_block) {
            Some(a) => a,
            None => {
                return Err(StatusInfo::ArithmeticOverflow);
            },
        };
        let post_amount: u64 = match post.checked_mul(halved) {
            Some(a) => a,
            None => {
                return Err(StatusInfo::ArithmeticOverflow);
            },
        };
        let amount: u64 = match pre_amount.checked_add(post_amount) {
            Some(a) => a,
            None => {
                return Err(StatusInfo::ArithmeticOverflow);
            },
        };
        let doubled: u64 = match self.next_halving_threshold.checked_mul(2) {
            Some(t) => t,
            None => {
                return Err(StatusInfo::ArithmeticOverflow);
            },
        };
        Ok(
            Emission {
                distribution_amount: amount,
                pre_halving_blocks: pre,
                post_halving_blocks: post,
                schedule: HalvingSchedule { reward_per_block: halved, next_halving_threshold: doubled },
            },
        )
    }
}

/// Accounts for `blocks_elapsed` blocks at a constant rate.
pub fn fixed_emission(blocks_elapsed: u64, reward_per_block: u64) -> (r: Result<u64, StatusInfo>)
    ensures
        match r {
            Ok(amount) => amount == fixed_distribution(blocks_elapsed as int, reward_per_block as int),
            Err(e) => {
                &&& fixed_distribution(blocks_elapsed as int, reward_per_block as int) > u64::MAX
                &&& e == StatusInfo::ArithmeticOverflow
            },
        },
{
    match blocks_elapsed.checked_mul(reward_per_block) {
        Some(amount) => Ok(amount),
        None => Err(StatusInfo::ArithmeticOverflow),
    }
}

/// The boundary block belongs to the old rate: a span that ends exactly on
/// the threshold is paid in full at the current rate and leaves the schedule
/// as it was, and a span that ends one block past the threshold pays exactly
/// one block at the halved rate, halves the rate and doubles the threshold.
pub proof fn lemma_halving_boundary(schedule: HalvingSchedule, block_height: int, blocks_elapsed: int)
    ensures
        block_height + blocks_elapsed == schedule.next_halving_threshold ==> {
            &&& schedule.post_blocks(block_height, blocks_elapsed) == 0
            &&& schedule.pre_blocks(block_height, blocks_elapsed) == blocks_elapsed
            &&& schedule.distribution(block_height, blocks_elapsed) == blocks_elapsed
                * schedule.reward_per_block
            &&& schedule.next_reward(block_height, blocks_elapsed) == schedule.reward_per_block
            &&& schedule.next_threshold(block_height, blocks_elapsed)
                == schedule.next_halving_threshold
        },
        block_height + blocks_elapsed == schedule.next_halving_threshold + 1 ==> {
            &&& schedule.post_blocks(block_height, blocks_elapsed) == 1
            &&& schedule.pre_blocks(block_height, blocks_elapsed) == blocks_elapsed - 1
            &&& schedule.distribution(block_height, blocks_elapsed) == (blocks_elapsed - 1)
                * schedule.reward_per_block + schedule.reward_per_block as int / 2
            &&& schedule.next_reward(block_height, blocks_elapsed) == schedule.reward_per_block
                as int / 2
            &&& schedule.next_threshold(block_height, blocks_elapsed) == 2
                * schedule.next_halving_threshold
        },
{
}

} // verus!
