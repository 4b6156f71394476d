//! The floating reference price and the buy / sell steps it emits.
use vstd::prelude::*;

use crate::strategy::{BUY_TRIGGER_MICRO_USD, SELL_TRIGGER_MICRO_USD};

verus! {

/// A step emitted when the price has moved far enough from the reference.
#[derive(Debug, Clone, Copy, PartialEq, Eq, Structural)]
pub enum PointerSignal {
    BuyStep,
    SellStep,
}

/// Tracks the reference price against which the next step is measured.
pub struct Pointer {
    reference_price: Option<u64>,
}

/// What one observed price does to the reference: the signal emitted, if any,
/// and the reference afterwards.
///
/// The first price only sets the reference.  After that a drop of at least
/// the buy trigger emits a buy step, else a rise of at least the sell trigger
/// emits a sell step; either moves the reference to the observed price.  Any
/// smaller move emits nothing and leaves the reference where it was.
pub open spec fn step(reference: Option<u64>, price: u64) -> (Option<PointerSignal>, Option<u64>) {
    match reference {
        None => (None, Some(price)),
        Some(r) => {
            let diff = price - r;
            if diff <= -(BUY_TRIGGER_MICRO_USD as int) {
                (Some(PointerSignal::BuyStep), Some(price))
            } else if diff >= SELL_TRIGGER_MICRO_USD as int {
                (Some(PointerSignal::SellStep), Some(price))
            } else {
                (None, Some(r))
            }
        },
    }
}

/// The first price never emits a step; it becomes the reference.
pub proof fn lemma_first_price_anchors(price: u64)
    ensures
        step(None, price) == (None::<PointerSignal>, Some(price)),
{
}

/// A drop of exactly the buy trigger emits a buy step and moves the reference
/// there; a price any amount above that, short of the sell trigger's rise,
/// emits nothing.
pub proof fn lemma_buy_threshold(r: u64, eps: u64)
    requires
        r >= BUY_TRIGGER_MICRO_USD,
        0 < eps < BUY_TRIGGER_MICRO_USD + SELL_TRIGGER_MICRO_USD,
        r - BUY_TRIGGER_MICRO_USD + eps <= u64::MAX,
    ensures
        step(Some(r), (r - BUY_TRIGGER_MICRO_USD) as u64) == (
            Some(PointerSignal::BuyStep),
            Some((r - BUY_TRIGGER_MICRO_USD) as u64),
        ),
        step(Some(r), (r - BUY_TRIGGER_MICRO_USD + eps) as u64) == (None::<PointerSignal>, Some(r)),
{
}

/// A rise of exactly the sell trigger emits a sell step and moves the
/// reference there; a price any amount below that, short of the buy trigger's
/// drop, emits nothing.
pub proof fn lemma_sell_threshold(r: u64, eps: u64)
    requires
        r + SELL_TRIGGER_MICRO_USD <= u64::MAX,
        0 < eps < BUY_TRIGGER_MICRO_USD + SELL_TRIGGER_MICRO_USD,
        eps <= r + SELL_TRIGGER_MICRO_USD,
    ensures
        step(Some(r), (r + SELL_TRIGGER_MICRO_USD) as u64) == (
            Some(PointerSignal::SellStep),
            Some((r + SELL_TRIGGER_MICRO_USD) as u64),
        ),
        step(Some(r), (r + SELL_TRIGGER_MICRO_USD - eps) as u64) == (None::<PointerSignal>, Some(r)),
{
}

/// After a step, the next price is judged against the price that emitted the
/// step, not against the earlier reference; after no step, the reference is
/// unchanged, so later prices are still judged against it.
pub proof fn lemma_ratchet(r: u64, first: u64, second: u64)
    ensures
        step(Some(r), first).0 is Some ==> step(step(Some(r), first).1, second) == step(Some(first), second),
        step(Some(r), first).0 is None ==> step(step(Some(r), first).1, second) == step(Some(r), second),
{
}

/// Two drops of half the buy trigger each: the first emits nothing and keeps
/// the reference, so the second, which reaches the full trigger from that
/// unmoved reference, emits a buy step.  Had a step moved the reference to the
/// first price in between, the second drop would have emitted nothing.
pub proof fn lemma_half_drops(r: u64)
    requires
        r >= BUY_TRIGGER_MICRO_USD,
    ensures
        step(Some(r), (r - BUY_TRIGGER_MICRO_USD / 2) as u64) == (None::<PointerSignal>, Some(r)),
        step(Some(r), (r - BUY_TRIGGER_MICRO_USD) as u64).0 == Some(PointerSignal::BuyStep),
        step(Some((r - BUY_TRIGGER_MICRO_USD / 2) as u64), (r - BUY_TRIGGER_MICRO_USD) as u64).0 is None,
{
}

impl View for Pointer {
    type V = Option<u64>;

    /// The reference price, absent until the first price is seen.
    closed spec fn view(&self) -> Option<u64> {
        self.reference_price
    }
}

impl Pointer {
    /// A pointer that has seen no price yet.
    pub fn new() -> (r: Self)
        ensures
            r@ == None::<u64>,
    {
        Pointer { reference_price: None }
    }

    /// Evaluates one observed price (in micro-dollars), emitting at most one step.
    pub fn update(&mut self, current_price: u64) -> (r: Option<PointerSignal>)
        ensures
            (r, final(self)@) == step(old(self)@, current_price),
    {
        let reference = match self.reference_price {
            Some(p) => p,
            None => {
                self.reference_price = Some(current_price);
                return None;
            },
        };
        if current_price <= reference && reference - current_price >= BUY_TRIGGER_MICRO_USD {
            self.reference_price = Some(current_price);
            return Some(PointerSignal::BuyStep);
        }
        if current_price >= reference && current_price - reference >= SELL_TRIGGER_MICRO_USD {
            self.reference_price = Some(current_price);
            return Some(PointerSignal::SellStep);
        }
        None
    }
}

} // verus!
