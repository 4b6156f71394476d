//! The decisions of one price tick: which hands to sell, which step the
//! pointer emits, and what to buy.  Carrying them out is left to the caller.
use vstd::prelude::*;

use crate::hand::{Hand, HandManager};
use crate::lock::{LockRules, released, scanned};
use crate::pointer::{Pointer, PointerSignal, step};
use crate::strategy::{BUY_SIZE_PPM, LAMPORTS_PER_SOL, MICROS_PER_USD};

verus! {

/// USDC base units (micro-dollars) spent on one buy at `price`: the buy
/// share of the price, rounded down.
pub open spec fn buy_usdc_amount(price: u64) -> int {
    (price * BUY_SIZE_PPM) / (MICROS_PER_USD as int)
}

/// Lamports bought by one buy at `price`: what the spent amount is worth at
/// that price, rounded down.
///
/// Spent amount over price is the buy share itself, so this is
/// `BUY_SIZE_PPM * 1000` lamports up to rounding, whatever the price.
pub open spec fn buy_size_lamports(price: u64) -> int
    recommends
        price > 0,
{
    (buy_usdc_amount(price) * LAMPORTS_PER_SOL) / (price as int)
}

/// One buy to carry out.
#[derive(Debug, Clone, Copy, PartialEq, Eq, Structural)]
pub struct BuyOrder {
    /// USDC to spend, in base units.
    pub usdc_amount: u64,
    /// SOL the new hand is recorded with, in lamports.
    pub size_sol: u64,
}

/// The buy order at `price` (micro-dollars, positive).
pub fn buy_order(price: u64) -> (r: BuyOrder)
    requires
        price > 0,
    ensures
        r.usdc_amount == buy_usdc_amount(price),
        r.size_sol == buy_size_lamports(price),
        r.size_sol <= BUY_SIZE_PPM * 1000,
{
    let usd = (price as u128 * BUY_SIZE_PPM as u128) / MICROS_PER_USD as u128;
    proof {
        assert(usd * 1_000_000 <= price * 5000) by (nonlinear_arith)
            requires
                usd == (price * 5000) / 1_000_000,
        ;
        assert(usd * 1_000_000_000 <= price * 5_000_000) by (nonlinear_arith)
            requires
                usd * 1_000_000 <= price * 5000,
        ;
        assert((usd * 1_000_000_000) / (price as int) <= 5_000_000) by (nonlinear_arith)
            requires
                usd * 1_000_000_000 <= price * 5_000_000,
                price > 0,
        ;
    }
    let size = (usd * LAMPORTS_PER_SOL as u128) / price as u128;
    BuyOrder { usdc_amount: usd as u64, size_sol: size as u64 }
}

/// What one tick decided.
#[derive(Debug, Clone)]
pub struct TickPlan {
    /// Hands released for sale this tick, unlocked, in store order.
    pub sells: Vec<Hand>,
    /// The step the pointer emitted, if any.
    pub signal: Option<PointerSignal>,
    /// The buy to make, on a buy step.
    pub buy: Option<BuyOrder>,
}

/// Runs the decisions of one tick at `price` (micro-dollars, positive):
/// first releases the hands that this price unlocks, then lets the pointer
/// judge the price, and on a buy step orders a buy.  The hand is not opened
/// here: the caller opens it with `open_hand` once the buy has gone through.
pub fn plan_tick(pointer: &mut Pointer, manager: &mut HandManager, price: u64) -> (r: TickPlan)
    requires
        price > 0,
    ensures
        final(manager).hands@ == scanned(old(manager).hands@, price),
        final(manager).free_hands == old(manager).free_hands,
        final(manager).batch_size == old(manager).batch_size,
        old(manager).wf() ==> final(manager).wf(),
        r.sells@ == released(old(manager).hands@, price),
        (r.signal, final(pointer)@) == step(old(pointer)@, price),
        r.buy == if r.signal == Some(PointerSignal::BuyStep) {
            Some(BuyOrder {
                usdc_amount: buy_usdc_amount(price) as u64,
                size_sol: buy_size_lamports(price) as u64,
            })
        } else {
            None::<BuyOrder>
        },
{
    let sells = LockRules::unlock_batch(&mut manager.hands, price);
    let signal = pointer.update(price);
    let buy = match signal {
        Some(PointerSignal::BuyStep) => Some(buy_order(price)),
        _ => None,
    };
    TickPlan { sells, signal, buy }
}

} // verus!
