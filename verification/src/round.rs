//! The round state machine: one deck, a player hand and a dealer hand,
//! driven by the four external commands (start, deal a card to the player,
//! stand, dealer draw). Every command is total over all stages: a command
//! that is not valid in the current stage leaves the round untouched, and a
//! draw from an exhausted deck is a no-op rather than a failure.

use vstd::prelude::*;
use vstd::multiset::Multiset;
use crate::card::Card;
use crate::deck::Deck;
use crate::hand::{Hand, spec_hand_value};

verus! {

/// The named stage of a round. `PlayerWon`, `HouseWon` and `Tie` are
/// terminal: no command moves the round out of them.
#[derive(Clone, Copy, PartialEq, Eq, Structural, Debug)]
pub enum GameStage {
    Init,
    Dealing,
    Standing,
    PlayerWon,
    HouseWon,
    Tie,
}

/// Stage reached when a card dealt to the player leaves the hands at these
/// totals: 21 wins at once (or ties against a dealer 21), above 21 busts,
/// anything lower keeps the player dealing.
pub open spec fn spec_stage_after_deal(player: int, dealer: int) -> GameStage {
    if player == 21 {
        if dealer == 21 {
            GameStage::Tie
        } else {
            GameStage::PlayerWon
        }
    } else if player > 21 {
        GameStage::HouseWon
    } else {
        GameStage::Dealing
    }
}

/// Stage reached when the player stands at these totals. The tie and loss
/// checks come before the below-17 draw check: a dealer hand already at or
/// above the player's total resolves at once, even under 17.
pub open spec fn spec_stage_after_stand(player: int, dealer: int) -> GameStage {
    if dealer == player {
        GameStage::Tie
    } else if dealer > player {
        GameStage::HouseWon
    } else if dealer < 17 {
        GameStage::Standing
    } else {
        GameStage::PlayerWon
    }
}

/// Stage reached when a dealer draw leaves the hands at these totals: a
/// dealer bust hands the player the win; otherwise the dealer wins above the
/// player's total, ties on it, and keeps drawing below it.
pub open spec fn spec_stage_after_dealer_draw(player: int, dealer: int) -> GameStage {
    if dealer > 21 {
        GameStage::PlayerWon
    } else if dealer > player {
        GameStage::HouseWon
    } else if dealer == player {
        GameStage::Tie
    } else {
        GameStage::Standing
    }
}

/// One game round: the deck and both hands, tagged with the current stage.
/// The structure is exclusively owned; commands mutate it in place.
pub struct Round {
    pub deck: Deck,
    pub player_hand: Hand,
    pub dealer_hand: Hand,
    pub game_stage: GameStage,
}

/// Moving the top card of the deck to the end of a hand only moves it: the
/// deck loses exactly that card and the hand gains exactly it.
proof fn lemma_deal_moves_multiset(
    deck0: Seq<Card>,
    deck1: Seq<Card>,
    hand0: Seq<Card>,
    hand1: Seq<Card>,
    c: Card,
)
    requires
        deck0.len() > 0,
        c == deck0.last(),
        deck1 == deck0.drop_last(),
        hand1 == hand0.push(c),
    ensures
        deck0.to_multiset() == deck1.to_multiset().insert(c),
        hand1.to_multiset() == hand0.to_multiset().insert(c),
{
    broadcast use vstd::seq_lib::group_to_multiset_ensures;

    assert(deck0 =~= deck1.push(c));
}

impl Round {
    /// Every card in play, counted with multiplicity: the deck and both
    /// hands together.
    pub open spec fn spec_cards_in_play(self) -> Multiset<Card> {
        self.deck@.to_multiset().add(self.player_hand@.to_multiset()).add(
            self.dealer_hand@.to_multiset(),
        )
    }

    /// Well-formed round: no card is in play twice, and no more than one
    /// deck's worth of cards is in play.
    pub open spec fn wf(self) -> bool {
        &&& forall|c: Card| self.spec_cards_in_play().count(c) <= 1
        &&& self.spec_cards_in_play().len() <= 52
    }

    /// The deck and both hands hold the same cards, in the same order, and
    /// the stage is the same: nothing about the round has changed.
    pub open spec fn same_state(self, other: Round) -> bool {
        &&& self.deck@ == other.deck@
        &&& self.player_hand@ == other.player_hand@
        &&& self.dealer_hand@ == other.dealer_hand@
        &&& self.game_stage == other.game_stage
    }

    /// In a well-formed round each component holds at most 52 cards.
    pub proof fn lemma_wf_hand_bounds(self)
        requires
            self.wf(),
        ensures
            self.deck@.len() + self.player_hand@.len() + self.dealer_hand@.len() <= 52,
    {
        broadcast use vstd::multiset::group_multiset_axioms;
        broadcast use vstd::seq_lib::group_to_multiset_ensures;

        assert(self.deck@.to_multiset().len() == self.deck@.len());
        assert(self.player_hand@.to_multiset().len() == self.player_hand@.len());
        assert(self.dealer_hand@.to_multiset().len() == self.dealer_hand@.len());
    }

    /// Builds a fresh round: a newly shuffled 52-card deck, two cards dealt
    /// to the player and two to the dealer, in stage `Init`. Every one of
    /// the 52 cards is in play exactly once.
    pub fn new() -> (r: Round)
        ensures
            r.game_stage == GameStage::Init,
            r.deck@.len() == 48,
            r.player_hand@.len() == 2,
            r.dealer_hand@.len() == 2,
            r.wf(),
            forall|c: Card| r.spec_cards_in_play().count(c) == 1,
    {
        broadcast use vstd::multiset::group_multiset_axioms;
        broadcast use vstd::seq_lib::group_to_multiset_ensures;

        let mut deck = Deck::new();
        proof {
            deck@.lemma_multiset_has_no_duplicates();
            assert forall|c: Card| deck@.to_multiset().count(c) == 1 by {
                assert(deck@.contains(c));
            }
        }
        let ghost m_full = deck@.to_multiset();
        deck.shuffle();
        let mut player = Hand::new();
        let mut dealer = Hand::new();

        let ghost d0 = deck@;
        let ghost p0 = player@;
        let c = deck.deal_card().unwrap();
        player.push(c);
        proof {
            lemma_deal_moves_multiset(d0, deck@, p0, player@, c);
        }

        let ghost d1 = deck@;
        let ghost p1 = player@;
        let c = deck.deal_card().unwrap();
        player.push(c);
        proof {
            lemma_deal_moves_multiset(d1, deck@, p1, player@, c);
        }

        let ghost d2 = deck@;
        let ghost e0 = dealer@;
        let c = deck.deal_card().unwrap();
        dealer.push(c);
        proof {
            lemma_deal_moves_multiset(d2, deck@, e0, dealer@, c);
        }

        let ghost d3 = deck@;
        let ghost e1 = dealer@;
        let c = deck.deal_card().unwrap();
        dealer.push(c);
        proof {
            lemma_deal_moves_multiset(d3, deck@, e1, dealer@, c);
        }

        let r = Round { deck, player_hand: player, dealer_hand: dealer, game_stage: GameStage::Init };
        proof {
            assert forall|c: Card| r.spec_cards_in_play().count(c) == 1 by {
                assert(m_full.count(c) == 1);
            }
            assert(r.spec_cards_in_play().len() == m_full.len());
        }
        r
    }

    /// Whether the external dealer-pacing timer should be running: exactly
    /// while the dealer is auto-drawing, that is in stage `Standing`.
    pub fn timer_active(&self) -> (r: bool)
        ensures
            r == (self.game_stage == GameStage::Standing),
    {
        self.game_stage == GameStage::Standing
    }

    /// The player elects to begin play: `Init` moves to `Dealing` with no
    /// card movement. In any other stage the command is a no-op.
    pub fn start(&mut self)
        ensures
            final(self).same_state(
                Round {
                    game_stage: if old(self).game_stage == GameStage::Init {
                        GameStage::Dealing
                    } else {
                        old(self).game_stage
                    },
                    ..*old(self)
                },
            ),
    {
        if self.game_stage == GameStage::Init {
            self.game_stage = GameStage::Dealing;
        }
    }

    /// Deals one card from the deck to the player, in stage `Dealing` only.
    /// An exhausted deck makes the command a no-op, as does any other stage;
    /// otherwise the new player total decides the next stage.
    pub fn deal_card(&mut self)
        requires
            old(self).wf(),
        ensures
            final(self).wf(),
            final(self).spec_cards_in_play() == old(self).spec_cards_in_play(),
            (old(self).game_stage != GameStage::Dealing || old(self).deck@.len() == 0) ==> final(self).same_state(*old(self)),
            old(self).game_stage == GameStage::Dealing && old(self).deck@.len() > 0 ==> {
                &&& final(self).deck@ == old(self).deck@.drop_last()
                &&& final(self).player_hand@ == old(self).player_hand@.push(old(self).deck@.last())
                &&& final(self).dealer_hand@ == old(self).dealer_hand@
                &&& final(self).game_stage == spec_stage_after_deal(
                    spec_hand_value(final(self).player_hand@),
                    spec_hand_value(old(self).dealer_hand@),
                )
            },
    {
        if self.game_stage != GameStage::Dealing {
            return ;
        }
        let ghost d0 = self.deck@;
        let ghost p0 = self.player_hand@;
        if let Some(new_card) = self.deck.deal_card() {
            self.player_hand.push(new_card);
            proof {
                broadcast use vstd::multiset::group_multiset_axioms;

                lemma_deal_moves_multiset(d0, self.deck@, p0, self.player_hand@, new_card);
                assert(self.spec_cards_in_play() =~= old(self).spec_cards_in_play());
                self.lemma_wf_hand_bounds();
            }
            let player_total = self.player_hand.value();
            let dealer_total = self.dealer_hand.value();
            if player_total == 21 {
                if dealer_total == 21 {
                    self.game_stage = GameStage::Tie;
                } else {
                    self.game_stage = GameStage::PlayerWon;
                }
            } else if player_total > 21 {
                self.game_stage = GameStage::HouseWon;
            }
        }
    }

    /// The player stands, in stage `Dealing` only: the dealer's current
    /// total is compared at once. A tie or a dealer lead resolves the round
    /// on the spot — even under 17 — and only a dealer total that is both
    /// behind the player's and under 17 leaves the dealer drawing in stage
    /// `Standing`. No card moves. In any other stage the command is a no-op.
    pub fn stand(&mut self)
        requires
            old(self).wf(),
        ensures
            final(self).wf(),
            final(self).spec_cards_in_play() == old(self).spec_cards_in_play(),
            final(self).same_state(
                Round {
                    game_stage: if old(self).game_stage == GameStage::Dealing {
                        spec_stage_after_stand(
                            spec_hand_value(old(self).player_hand@),
                            spec_hand_value(old(self).dealer_hand@),
                        )
                    } else {
                        old(self).game_stage
                    },
                    ..*old(self)
                },
            ),
    {
        if self.game_stage != GameStage::Dealing {
            return ;
        }
        proof {
            self.lemma_wf_hand_bounds();
        }
        let dealer_total = self.dealer_hand.value();
        let player_total = self.player_hand.value();
        if dealer_total == player_total {
            self.game_stage = GameStage::Tie;
        } else if dealer_total > player_total {
            self.game_stage = GameStage::HouseWon;
        } else if dealer_total < 17 {
            self.game_stage = GameStage::Standing;
        } else {
            self.game_stage = GameStage::PlayerWon;
        }
    }

    /// One timer tick while the dealer is drawing, in stage `Standing` only:
    /// deals one card from the deck to the dealer and resolves against the
    /// player's total. An exhausted deck leaves hand and stage untouched on
    /// that tick, and any other stage makes the command a no-op.
    pub fn dealer_draw(&mut self)
        requires
            old(self).wf(),
        ensures
            final(self).wf(),
            final(self).spec_cards_in_play() == old(self).spec_cards_in_play(),
            (old(self).game_stage != GameStage::Standing || old(self).deck@.len() == 0) ==> final(self).same_state(*old(self)),
            old(self).game_stage == GameStage::Standing && old(self).deck@.len() > 0 ==> {
                &&& final(self).deck@ == old(self).deck@.drop_last()
                &&& final(self).dealer_hand@ == old(self).dealer_hand@.push(old(self).deck@.last())
                &&& final(self).player_hand@ == old(self).player_hand@
                &&& final(self).game_stage == spec_stage_after_dealer_draw(
                    spec_hand_value(old(self).player_hand@),
                    spec_hand_value(final(self).dealer_hand@),
                )
            },
    {
        if self.game_stage != GameStage::Standing {
            return ;
        }
        let ghost d0 = self.deck@;
        let ghost e0 = self.dealer_hand@;
        if let Some(new_card) = self.deck.deal_card() {
            self.dealer_hand.push(new_card);
            proof {
                broadcast use vstd::multiset::group_multiset_axioms;

                lemma_deal_moves_multiset(d0, self.deck@, e0, self.dealer_hand@, new_card);
                assert(self.spec_cards_in_play() =~= old(self).spec_cards_in_play());
                self.lemma_wf_hand_bounds();
            }
            let dealer_total = self.dealer_hand.value();
            let player_total = self.player_hand.value();
            if dealer_total > 21 {
                self.game_stage = GameStage::PlayerWon;
            } else if dealer_total > player_total {
                self.game_stage = GameStage::HouseWon;
            } else if dealer_total == player_total {
                self.game_stage = GameStage::Tie;
            }
        }
    }
}

} // verus!
