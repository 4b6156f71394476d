//! Open positions ("hands") and the rule that locks all but the first few.
use vstd::prelude::*;

use crate::strategy::{BATCH_SIZE, FREE_HANDS};

verus! {

/// One opened buy.
#[derive(Debug, Clone, Copy, PartialEq, Eq, Structural)]
pub struct Hand {
    /// Entry price, in micro-dollars.
    pub price: u64,
    /// Amount bought, in lamports.
    pub size_sol: u64,
    /// Whether the hand is held back from sale.
    pub locked: bool,
}

impl Hand {
    pub fn new(price: u64, size_sol: u64, locked: bool) -> (r: Self)
        ensures
            r == (Hand { price, size_sol, locked }),
    {
        Hand { price, size_sol, locked }
    }
}

/// Number of locked hands in `hands`.
pub open spec fn locked_count(hands: Seq<Hand>) -> nat
    decreases hands.len(),
{
    if hands.len() == 0 {
        0
    } else {
        locked_count(hands.drop_last()) + if hands.last().locked { 1nat } else { 0nat }
    }
}

/// Whether the hand opened after `opened` others is created locked: every
/// hand past the first `FREE_HANDS` is.
pub open spec fn opens_locked(opened: nat) -> bool {
    opened >= FREE_HANDS
}

/// The hands of a store into which `entries` (price and size each) were
/// opened in order, with nothing unlocked since.
pub open spec fn opened(entries: Seq<(u64, u64)>) -> Seq<Hand> {
    Seq::new(
        entries.len(),
        |i: int| Hand { price: entries[i].0, size_sol: entries[i].1, locked: opens_locked(i as nat) },
    )
}

/// Opening hands one after another into an empty store: each open appends
/// to what the earlier opens left, the first `FREE_HANDS` hands come
/// unlocked, and every later one comes locked, whatever its price or size.
pub proof fn lemma_lock_counting(entries: Seq<(u64, u64)>, price: u64, size_sol: u64)
    ensures
        opened(Seq::empty()) == Seq::<Hand>::empty(),
        opened(entries).push(Hand { price, size_sol, locked: opens_locked(entries.len()) })
            == opened(entries.push((price, size_sol))),
        forall|i: int| 0 <= i < entries.len() ==> (#[trigger] opened(entries)[i]).locked == (i >= FREE_HANDS),
{
    assert(opened(Seq::empty()) =~= Seq::<Hand>::empty());
    assert(opened(entries).push(Hand { price, size_sol, locked: opens_locked(entries.len()) })
        =~= opened(entries.push((price, size_sol))));
}

/// What `open_hand` reports about the hand it has just opened.
#[derive(Debug, Clone, Copy, PartialEq, Eq, Structural)]
pub struct HandOpened {
    /// The new hand.
    pub hand: Hand,
    /// Number of hands in the store, the new one included.
    pub total_hands: usize,
    /// Whether that number is a whole multiple of the batch size.
    pub batch_ready: bool,
}

/// The ordered store of hands, in the order they were opened.
pub struct HandManager {
    pub hands: Vec<Hand>,
    /// How many hands have been opened unlocked, at most `FREE_HANDS`.
    pub free_hands: usize,
    /// Every this many opened hands a batch is reported ready.
    pub batch_size: usize,
}

impl HandManager {
    /// The free-slot counter has counted the first opened hands, up to
    /// `FREE_HANDS` of them, and the batch size is positive.
    pub open spec fn wf(&self) -> bool {
        &&& self.batch_size > 0
        &&& self.free_hands as int == if self.hands@.len() < FREE_HANDS {
            self.hands@.len() as int
        } else {
            FREE_HANDS as int
        }
    }

    /// An empty store.
    pub fn new() -> (r: Self)
        ensures
            r.wf(),
            r.hands@ == Seq::<Hand>::empty(),
            r.free_hands == 0,
            r.batch_size == BATCH_SIZE,
    {
        HandManager { hands: Vec::new(), free_hands: 0, batch_size: BATCH_SIZE }
    }

    /// Appends a hand bought at `price` (micro-dollars) of `size_sol`
    /// (lamports).  It is locked unless fewer than `FREE_HANDS` hands have
    /// been opened before it.
    pub fn open_hand(&mut self, price: u64, size_sol: u64) -> (r: HandOpened)
        requires
            old(self).wf(),
            old(self).hands.len() < usize::MAX,
        ensures
            final(self).wf(),
            final(self).batch_size == old(self).batch_size,
            final(self).hands@ == old(self).hands@.push(
                Hand { price, size_sol, locked: opens_locked(old(self).hands@.len()) },
            ),
            r.hand == final(self).hands@.last(),
            r.total_hands == final(self).hands@.len(),
            r.batch_ready == (final(self).hands@.len() % final(self).batch_size as nat == 0),
            locked_count(final(self).hands@) == locked_count(old(self).hands@) + if r.hand.locked {
                1nat
            } else {
                0nat
            },
    {
        let locked = self.should_lock();
        let hand = Hand::new(price, size_sol, locked);
        self.hands.push(hand);
        let total_hands = self.hands.len();
        proof {
            assert(self.hands@.drop_last() == old(self).hands@);
        }
        HandOpened { hand, total_hands, batch_ready: total_hands % self.batch_size == 0 }
    }

    /// Takes a free slot if one is left: returns whether the next hand is locked.
    fn should_lock(&mut self) -> (r: bool)
        requires
            old(self).wf(),
        ensures
            r == opens_locked(old(self).hands@.len()),
            final(self).hands == old(self).hands,
            final(self).batch_size == old(self).batch_size,
            final(self).free_hands == if r { old(self).free_hands } else { (old(self).free_hands + 1) as usize },
    {
        if self.free_hands < FREE_HANDS {
            self.free_hands += 1;
            false
        } else {
            true
        }
    }

    /// Number of locked hands.
    pub fn total_locked(&self) -> (r: usize)
        ensures
            r == locked_count(self.hands@),
    {
        let mut count: usize = 0;
        let mut i: usize = 0;
        while i < self.hands.len()
            invariant
                i <= self.hands@.len(),
                count == locked_count(self.hands@.subrange(0, i as int)),
                count <= i,
            decreases self.hands@.len() - i,
        {
            proof {
                assert(self.hands@.subrange(0, i + 1).drop_last() == self.hands@.subrange(0, i as int));
            }
            if self.hands[i].locked {
                count += 1;
            }
            i += 1;
        }
        proof {
            assert(self.hands@.subrange(0, i as int) == self.hands@);
        }
        count
    }
}

} // verus!
