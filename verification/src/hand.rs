//! A hand: the ordered cards dealt to one party, and its blackjack score.
//!
//! Each ace counts as 11 by default; whenever the running total exceeds 21,
//! aces are demoted to 1 one at a time until the total is at most 21 or no
//! ace is left to demote.

use vstd::prelude::*;
use crate::card::{Card, Rank};

verus! {

/// Sum of the card values with every ace counted high (11).
pub open spec fn spec_raw_sum(cards: Seq<Card>) -> int
    decreases cards.len(),
{
    if cards.len() == 0 {
        0
    } else {
        spec_raw_sum(cards.drop_last()) + cards.last().spec_value()
    }
}

/// Number of aces among the cards.
pub open spec fn spec_ace_count(cards: Seq<Card>) -> int
    decreases cards.len(),
{
    if cards.len() == 0 {
        0int
    } else {
        spec_ace_count(cards.drop_last()) + if cards.last().rank == Rank::Ace {
            1int
        } else {
            0int
        }
    }
}

/// Demotes one ace at a time (11 down to 1, i.e. minus 10) while the total
/// exceeds 21 and an ace is left, stopping as soon as the total is at most 21
/// or no further demotion is possible.
pub open spec fn spec_soften(total: int, aces: int) -> int
    decreases aces,
{
    if total > 21 && aces > 0 {
        spec_soften(total - 10, aces - 1)
    } else {
        total
    }
}

/// Blackjack score of a card sequence: the high-ace sum, softened.
pub open spec fn spec_hand_value(cards: Seq<Card>) -> int {
    spec_soften(spec_raw_sum(cards), spec_ace_count(cards))
}

/// The ordered cards held by one party; order reflects deal order.
pub struct Hand {
    pub cards: Vec<Card>,
}

impl View for Hand {
    type V = Seq<Card>;

    open spec fn view(&self) -> Seq<Card> {
        self.cards@
    }
}

impl Hand {
    /// Creates an empty hand.
    pub fn new() -> (h: Hand)
        ensures
            h@ == Seq::<Card>::empty(),
    {
        Hand { cards: Vec::new() }
    }

    /// Appends a card at the end of the hand.
    pub fn push(&mut self, card: Card)
        ensures
            final(self)@ == old(self)@.push(card),
    {
        self.cards.push(card);
    }

    /// Removes and returns the most recently pushed card; signals absence on
    /// an empty hand.
    pub fn pop(&mut self) -> (r: Option<Card>)
        ensures
            old(self)@.len() == 0 ==> r is None && final(self)@ == old(self)@,
            old(self)@.len() > 0 ==> r == Some(old(self)@.last()) && final(self)@ == old(
                self,
            )@.drop_last(),
    {
        self.cards.pop()
    }

    /// Score of the hand under the ace-softening rule, recomputed from the
    /// current card sequence alone: equal hands always score equally. Hands
    /// are dealt from a single 52-card deck, so no hand outgrows that bound.
    pub fn value(&self) -> (v: u32)
        requires
            self@.len() <= 52,
        ensures
            v == spec_hand_value(self@),
    {
        let n = self.cards.len();
        let mut total: u32 = 0;
        let mut aces: u32 = 0;
        for i in 0..n
            invariant
                n == self@.len() <= 52,
                total == spec_raw_sum(self@.take(i as int)),
                aces == spec_ace_count(self@.take(i as int)),
                total <= 11 * i,
                aces <= i,
        {
            let c = self.cards[i];
            proof {
                assert(self@.take(i + 1).drop_last() =~= self@.take(i as int));
                assert(self@.take(i + 1).last() == c);
            }
            total = total + c.value();
            if c.rank == Rank::Ace {
                aces = aces + 1;
            }
        }
        proof {
            assert(self@.take(n as int) =~= self@);
        }
        while total > 21 && aces > 0
            invariant
                spec_soften(total as int, aces as int) == spec_hand_value(self@),
            decreases aces,
        {
            total = total - 10;
            aces = aces - 1;
        }
        total
    }
}

} // verus!
