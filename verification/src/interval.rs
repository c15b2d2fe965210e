//! Interval calculator: turns the seconds elapsed since the last checkpoint
//! into whole blocks and a remainder that is carried to the next call.

use vstd::prelude::*;
use vstd::arithmetic::div_mod::lemma_fundamental_div_mod;
use crate::status::StatusInfo;

verus! {

/// What one measurement of the clock against the checkpoint yields.
#[derive(Clone, Copy, Debug, PartialEq, Eq)]
pub struct Interval {
    /// Seconds between the checkpoint and now.
    pub elapsed: i64,
    /// Whole block periods contained in `elapsed`.
    pub blocks_elapsed: u64,
    /// Seconds of `elapsed` that do not fill a block.
    pub remainder: u64,
    /// The checkpoint after accounting for `blocks_elapsed` blocks.
    pub checkpoint_time: i64,
}

/// Whether and why a measurement at `now` against `last_checkpoint_time` is
/// refused; `Success` when it is not.
pub open spec fn interval_status(now: int, last_checkpoint_time: int, block_period: int) -> StatusInfo {
    let elapsed = now - last_checkpoint_time;
    if elapsed <= 0 {
        StatusInfo::InvalidTimestamp
    } else if elapsed > i64::MAX {
        StatusInfo::ArithmeticOverflow
    } else if elapsed < block_period {
        StatusInfo::InsufficientIntervalError
    } else {
        StatusInfo::Success
    }
}

/// Whole blocks contained in `elapsed` seconds.
pub open spec fn blocks_in(elapsed: int, block_period: int) -> int {
    elapsed / block_period
}

/// Seconds of `elapsed` left over after the whole blocks.
pub open spec fn remainder_of(elapsed: int, block_period: int) -> int {
    elapsed % block_period
}

/// Measures the time since the checkpoint in blocks of `block_period` seconds.
///
/// The new checkpoint is `now` minus the remainder, so it advances by exactly
/// `blocks_elapsed * block_period` and no fraction of a block is ever lost.
pub fn measure_interval(now: i64, last_checkpoint_time: i64, block_period: u64) -> (r: Result<
    Interval,
    StatusInfo,
>)
    requires
        block_period > 0,
    ensures
        match r {
            Ok(iv) => {
                &&& interval_status(now as int, last_checkpoint_time as int, block_period as int)
                    == StatusInfo::Success
                &&& iv.elapsed == now - last_checkpoint_time
                &&& iv.blocks_elapsed == blocks_in(now - last_checkpoint_time, block_period as int)
                &&& iv.remainder == remainder_of(now - last_checkpoint_time, block_period as int)
                &&& iv.checkpoint_time == now - iv.remainder
                &&& iv.checkpoint_time == last_checkpoint_time + iv.blocks_elapsed * block_period
                &&& iv.blocks_elapsed >= 1
                &&& iv.remainder < block_period
            },
            Err(e) => {
                &&& e == interval_status(now as int, last_checkpoint_time as int, block_period as int)
                &&& e != StatusInfo::Success
            },
        },
{
    if now <= last_checkpoint_time {
        return Err(StatusInfo::InvalidTimestamp);
    }
    let elapsed: i64 = match now.checked_sub(last_checkpoint_time) {
        Some(e) => e,
        None => {
            return Err(StatusInfo::ArithmeticOverflow);
        },
    };
    let seconds: u64 = elapsed as u64;
    if seconds < block_period {
        return Err(StatusInfo::InsufficientIntervalError);
    }
    let remainder: u64 = seconds % block_period;
    let blocks_elapsed: u64 = seconds / block_period;
    proof {
        lemma_whole_block_fits(seconds as int, block_period as int);
    }
    let checkpoint_time: i64 = now - (remainder as i64);
    Ok(Interval { elapsed, blocks_elapsed, remainder, checkpoint_time })
}

/// A span of at least one period holds at least one block, and the blocks it
/// holds do not exceed it.
pub proof fn lemma_whole_block_fits(elapsed: int, block_period: int)
    by (nonlinear_arith)
    requires
        0 < block_period <= elapsed,
    ensures
        1 <= elapsed / block_period <= elapsed,
        0 <= elapsed % block_period < block_period,
        elapsed % block_period <= elapsed,
        elapsed == (elapsed / block_period) * block_period + elapsed % block_period,
{
    lemma_fundamental_div_mod(elapsed, block_period);
}

} // verus!
