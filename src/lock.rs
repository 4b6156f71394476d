//! Which locked hands may be sold at the current price.
use vstd::prelude::*;

use crate::hand::{Hand, locked_count};
use crate::strategy::{LOCK_BAND_MICRO_USD, UNLOCK_BAND_MICRO_USD};

verus! {

/// The rules that release locked hands.
pub struct LockRules;

/// Whether `hand` is released at `price`: it is locked and the price has
/// risen by at least the unlock band over its entry price.
pub open spec fn releases(hand: Hand, price: u64) -> bool {
    hand.locked && price >= hand.price + UNLOCK_BAND_MICRO_USD
}

/// `hand` as it stands after a scan at `price`.
pub open spec fn after_scan(hand: Hand, price: u64) -> Hand {
    if releases(hand, price) {
        Hand { locked: false, ..hand }
    } else {
        hand
    }
}

/// All hands as they stand after a scan at `price`.
pub open spec fn scanned(hands: Seq<Hand>, price: u64) -> Seq<Hand> {
    hands.map_values(|h: Hand| after_scan(h, price))
}

/// The hands that a scan at `price` releases, as they stand after it, in
/// their order in `hands`.
pub open spec fn released(hands: Seq<Hand>, price: u64) -> Seq<Hand>
    decreases hands.len(),
{
    if hands.len() == 0 {
        Seq::empty()
    } else {
        let rest = released(hands.drop_last(), price);
        if releases(hands.last(), price) {
            rest.push(after_scan(hands.last(), price))
        } else {
            rest
        }
    }
}

impl LockRules {
    /// Whether `hand` is locked and `price` is still below its entry price
    /// plus the lock band.  This advisory band is narrower than the one that
    /// `unlock_batch` uses.
    pub fn is_locked(hand: &Hand, price: u64) -> (r: bool)
        ensures
            r == (hand.locked && price < hand.price + LOCK_BAND_MICRO_USD),
    {
        hand.locked && (price < LOCK_BAND_MICRO_USD || price - LOCK_BAND_MICRO_USD < hand.price)
    }

    /// Unlocks every locked hand whose entry price `price` exceeds by at least
    /// the unlock band, and returns those hands, unlocked, in store order.
    /// Other hands are left as they were.
    pub fn unlock_batch(hands: &mut Vec<Hand>, price: u64) -> (r: Vec<Hand>)
        ensures
            final(hands)@ == scanned(old(hands)@, price),
            r@ == released(old(hands)@, price),
            locked_count(final(hands)@) + r@.len() == locked_count(old(hands)@),
    {
        let ghost start = hands@;
        let mut unlocked: Vec<Hand> = Vec::new();
        let mut i: usize = 0;
        while i < hands.len()
            invariant
                hands@.len() == start.len(),
                i <= start.len(),
                forall|j: int| 0 <= j < i ==> hands@[j] == after_scan(#[trigger] start[j], price),
                forall|j: int| i <= j < start.len() ==> hands@[j] == start[j],
                unlocked@ == released(start.subrange(0, i as int), price),
            decreases start.len() - i,
        {
            let hand = hands[i];
            proof {
                assert(start.subrange(0, i + 1).drop_last() == start.subrange(0, i as int));
            }
            if hand.locked && price >= UNLOCK_BAND_MICRO_USD && price - UNLOCK_BAND_MICRO_USD >= hand.price {
                let opened = Hand { locked: false, ..hand };
                hands.set(i, opened);
                unlocked.push(opened);
            }
            i += 1;
        }
        proof {
            assert(start.subrange(0, start.len() as int) == start);
            assert(hands@ =~= scanned(start, price));
            lemma_scan_count(start, price);
        }
        unlocked
    }
}

/// A scan lowers the number of locked hands by exactly the number of hands
/// it releases, so `total_locked` stays the count of locked hands after it.
pub proof fn lemma_scan_count(hands: Seq<Hand>, price: u64)
    ensures
        locked_count(scanned(hands, price)) + released(hands, price).len() == locked_count(hands),
    decreases hands.len(),
{
    if hands.len() > 0 {
        lemma_scan_count(hands.drop_last(), price);
        assert(scanned(hands, price).drop_last() =~= scanned(hands.drop_last(), price));
    }
}

/// A second scan at the same price changes nothing and releases nothing:
/// every hand the first scan could release is already unlocked.
pub proof fn lemma_unlock_idempotent(hands: Seq<Hand>, price: u64)
    ensures
        scanned(scanned(hands, price), price) == scanned(hands, price),
        released(scanned(hands, price), price) == Seq::<Hand>::empty(),
    decreases hands.len(),
{
    assert(scanned(scanned(hands, price), price) =~= scanned(hands, price));
    if hands.len() > 0 {
        lemma_unlock_idempotent(hands.drop_last(), price);
        assert(scanned(hands, price).drop_last() =~= scanned(hands.drop_last(), price));
    }
}

} // verus!
