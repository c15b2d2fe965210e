//! Fixed-cadence token emission.
//!
//! Tokens are minted by the clock, not by the caller: each call accounts for
//! the whole blocks that have elapsed since the last checkpoint, pays them at
//! the rate of the reward schedule, and splits the amount across the
//! allocation buckets. The library decides; the caller reads the ledger and
//! the clock beforehand and carries out the mints afterwards.
//!
//! Three choices shape the numbers:
//!
//! - Portions are exact. A share is an integer numerator over the table's
//!   denominator and a bucket receives the floor of its portion, so every
//!   machine computes the same amounts.
//! - The supply cap is tested when a call begins. The amount of a call is not
//!   clamped to the headroom, so the last accepted call may overshoot the cap.
//! - A call resolves at most one halving, however many thresholds its span
//!   passes.

pub mod accounts;
pub mod allocation;
pub mod checkpoint;
pub mod events;
pub mod faucet;
pub mod halving;
pub mod identity;
pub mod interval;
pub mod status;
pub mod supply;

pub use accounts::{Drip, Initialize};
pub use checkpoint::ConfigAccount;
pub use events::{DripEvent, InitializeEvent};
pub use faucet::{drip, initialize, DripOutcome, DripRefusal};
pub use identity::Identity;
pub use status::StatusInfo;
