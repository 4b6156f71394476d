//! The strategy's fixed configuration.
use vstd::prelude::*;

verus! {

/// Drop from the reference price, in micro-dollars, that emits a buy step ($0.02).
pub const BUY_TRIGGER_MICRO_USD: u64 = 20_000;

/// Rise from the reference price, in micro-dollars, that emits a sell step ($0.03).
pub const SELL_TRIGGER_MICRO_USD: u64 = 30_000;

/// Share of the price spent on one buy, in parts per million (0.5%).
pub const BUY_SIZE_PPM: u64 = 5_000;

/// Number of opened positions after which a batch is reported ready.
pub const BATCH_SIZE: usize = 10;

/// Number of positions that are opened unlocked before locking starts.
pub const FREE_HANDS: usize = 2;

/// Rise over a position's entry price, in micro-dollars, under which
/// `LockRules::is_locked` still reports a locked position as locked ($0.20).
///
/// This band is narrower than `UNLOCK_BAND_MICRO_USD`; the two are kept
/// apart on purpose, as the open question of which one is meant is not settled.
pub const LOCK_BAND_MICRO_USD: u64 = 200_000;

/// Rise over a position's entry price, in micro-dollars, at which
/// `LockRules::unlock_batch` releases a locked position ($0.50).
pub const UNLOCK_BAND_MICRO_USD: u64 = 500_000;

/// Micro-dollars in one dollar; also the base units in one USDC.
pub const MICROS_PER_USD: u64 = 1_000_000;

/// Lamports in one SOL.
pub const LAMPORTS_PER_SOL: u64 = 1_000_000_000;

} // verus!
