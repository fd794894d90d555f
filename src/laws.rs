use vstd::prelude::*;

use crate::auction::{bid_of_id, Bid, Call, Strain, PASS_ID};
use crate::cards::{Card, Seat, Suit};
use crate::deal::{beats, CardLocation, DealState, DealView};
use crate::error::GameError;

verus! {

broadcast use crate::auction::lemma_first_mentioned_set;

/// Four steps round the table come back to the start; the partner's partner is oneself; the
/// partner sits two steps on.
pub proof fn lemma_seat_cycle(s: Seat)
    ensures
        s.spec_next().spec_next().spec_next().spec_next() == s,
        s.spec_partner().spec_partner() == s,
        s.spec_partner() == s.spec_next().spec_next(),
{
}

/// Decoding a bid's action id gives the bid back, and every id below 35 is some bid's id.
pub proof fn lemma_bid_round_trip(b: Bid, id: int)
    ensures
        bid_of_id(b.spec_id()) == b,
        0 <= b.spec_id() < 35,
        0 <= id < 35 ==> bid_of_id(id).spec_id() == id,
{
}

/// A seat that holds thirteen cards is refused any further card, whichever it is.
pub proof fn lemma_fourteenth_card(d: DealView, seat: Seat, card: Card)
    requires
        d.count(seat) == 13,
    ensures
        d.give_error(seat, card) == Some(GameError::FourteenCards { seat, card }),
{
}

/// A seat that has shown out of a suit is refused any card of that suit while it has room.
pub proof fn lemma_shown_out_refused(d: DealView, seat: Seat, card: Card)
    requires
        d.no_card(seat, card.suit),
        d.count(seat) < 13,
    ensures
        d.give_error(seat, card) == Some(
            GameError::Revoked { card, give_to: seat, revoked: card.suit },
        ),
{
}

/// An accepted action never clears a flag that records a seat as shown out of a suit.
pub proof fn lemma_shown_out_stays(d: DealView, id: u8, seat: Seat, suit: Suit)
    requires
        d.wf(),
        d.action_error(id) is None,
        d.no_card(seat, suit),
    ensures
        d.after_action(id).no_card(seat, suit),
{
}

/// No sequence of accepted actions clears a flag that records a seat as shown out of a suit.
pub proof fn lemma_shown_out_stays_replay(d: DealView, ids: Seq<u8>, seat: Seat, suit: Suit)
    requires
        d.wf(),
        d.accepts(ids),
        d.no_card(seat, suit),
    ensures
        d.replay(ids).no_card(seat, suit),
    decreases ids.len(),
{
    if ids.len() > 0 {
        lemma_shown_out_stays_replay(d, ids.drop_last(), seat, suit);
        lemma_accepted_stays_wf(d, ids.drop_last());
        lemma_shown_out_stays(d.replay(ids.drop_last()), ids.last(), seat, suit);
    }
}

/// An accepted action leaves a well-formed deal well-formed.
pub proof fn lemma_action_keeps_wf(d: DealView, id: u8)
    requires
        d.wf(),
        d.action_error(id) is None,
    ensures
        d.after_action(id).wf(),
{
}

/// Accepted actions leave a well-formed deal well-formed.
pub proof fn lemma_accepted_stays_wf(d: DealView, ids: Seq<u8>)
    requires
        d.wf(),
        d.accepts(ids),
    ensures
        d.replay(ids).wf(),
    decreases ids.len(),
{
    if ids.len() > 0 {
        lemma_accepted_stays_wf(d, ids.drop_last());
        lemma_action_keeps_wf(d.replay(ids.drop_last()), ids.last());
    }
}

/// With no bid made and no pass yet, four passes end the deal with no play.
pub proof fn lemma_passed_out(d: DealView)
    requires
        d.wf(),
        d.state matches DealState::Bidding { last_bid, pass_count, .. } && last_bid is None
            && pass_count == 0,
    ensures
        d.accepts(seq![PASS_ID, PASS_ID, PASS_ID, PASS_ID]),
        d.replay(seq![PASS_ID, PASS_ID, PASS_ID, PASS_ID]).state == DealState::Scoring,
{
    let p = PASS_ID;
    let ids = seq![p, p, p, p];
    assert(ids.drop_last() =~= seq![p, p, p]);
    assert(seq![p, p, p].drop_last() =~= seq![p, p]);
    assert(seq![p, p].drop_last() =~= seq![p]);
    assert(seq![p].drop_last() =~= Seq::<u8>::empty());
    assert(d.replay(Seq::<u8>::empty()) == d);
    assert(d.accepts(Seq::<u8>::empty()));
    let d1 = d.replay(seq![p]);
    let d2 = d.replay(seq![p, p]);
    let d3 = d.replay(seq![p, p, p]);
    assert(d1 == d.after_call(Call::Pass));
    assert(d.accepts(seq![p]));
    assert(d1.state->pass_count == 1);
    assert(d2 == d1.after_call(Call::Pass));
    assert(d2.state->pass_count == 2);
    assert(d.accepts(seq![p, p]));
    assert(d3 == d2.after_call(Call::Pass));
    assert(d3.state->pass_count == 3);
    assert(d.accepts(seq![p, p, p]));
}

/// A bid followed by three passes closes the auction: the play starts, with the bid's strain
/// as trump and the bid as the contract.
pub proof fn lemma_auction_closes(d: DealView, b: Bid)
    requires
        d.wf(),
        d.state is Bidding,
        d.bid_error(b) is None,
    ensures
        d.accepts(seq![b.spec_id() as u8, PASS_ID, PASS_ID, PASS_ID]),
        d.replay(seq![b.spec_id() as u8, PASS_ID, PASS_ID, PASS_ID]).state matches DealState::Playing {
            trump,
            tricks_played,
            contract,
            ..
        } && trump == b.strain && tricks_played == 0 && contract.0 == b,
{
    let p = PASS_ID;
    let x = b.spec_id() as u8;
    lemma_bid_round_trip(b, 0);
    let ids = seq![x, p, p, p];
    assert(ids.drop_last() =~= seq![x, p, p]);
    assert(seq![x, p, p].drop_last() =~= seq![x, p]);
    assert(seq![x, p].drop_last() =~= seq![x]);
    assert(seq![x].drop_last() =~= Seq::<u8>::empty());
    assert(d.replay(Seq::<u8>::empty()) == d);
    assert(d.accepts(Seq::<u8>::empty()));
    let d1 = d.replay(seq![x]);
    let d2 = d.replay(seq![x, p]);
    let d3 = d.replay(seq![x, p, p]);
    assert(d1 == d.after_bid(b));
    assert(d1.state->pass_count == 0);
    assert(d.accepts(seq![x]));
    assert(d2 == d1.after_call(Call::Pass));
    assert(d2.state->pass_count == 1);
    assert(d.accepts(seq![x, p]));
    assert(d3 == d2.after_call(Call::Pass));
    assert(d3.state->pass_count == 2);
    assert(d.accepts(seq![x, p, p]));
}

/// Once the deal is over nobody is to act, and every bid, call and card play is refused as
/// out of phase.
pub proof fn lemma_scoring_is_final(d: DealView, b: Bid, c: Call, card: Card, id: u8)
    requires
        d.state is Scoring,
    ensures
        d.next_to_act() is None,
        d.bid_error(b) == Some(GameError::InvalidState),
        d.call_error(c) == Some(GameError::InvalidState),
        d.play_error(card) == Some(GameError::InvalidState),
        d.action_error(id) == Some(GameError::InvalidState),
{
}

/// The card that completes the thirteenth trick ends the deal.
pub proof fn lemma_thirteenth_trick(d: DealView, card: Card)
    requires
        d.wf(),
        d.state matches DealState::Playing { tricks_played, .. } && tricks_played == 12,
        d.trick matches Some(t) && t.cards_played == 3,
        d.play_error(card) is None,
    ensures
        d.after_play(card).state == DealState::Scoring,
        d.after_play(card).tricks_done() == 13,
{
}

/// A trump takes the lead from a best card that is no trump, whatever the ranks; a card
/// that is neither a trump nor of the best card's suit never takes it.
pub proof fn lemma_trump_wins(card: Card, best: Card, trump: Strain)
    ensures
        trump == Strain::Suit(card.suit) && best.suit != card.suit ==> beats(card, best, trump),
        trump != Strain::Suit(card.suit) && best.suit != card.suit ==> !beats(card, best, trump),
{
}

/// No seat holds more than thirteen cards, so the seats hold at most the fifty-two cards of
/// the deck between them.
pub proof fn lemma_card_counts(d: DealView)
    requires
        d.wf(),
    ensures
        forall|s: Seat| #[trigger] d.count(s) <= 13,
        d.card_count[0] + d.card_count[1] + d.card_count[2] + d.card_count[3] <= 52,
{
    assert forall|s: Seat| #[trigger] d.count(s) <= 13 by {
        assert(d.card_count[s.spec_index()] <= 13);
    }
    assert(d.card_count[0] <= 13 && d.card_count[1] <= 13 && d.card_count[2] <= 13
        && d.card_count[3] <= 13);
}

/// An accepted action moves a card only forward: from nobody to a hand, and from a hand to
/// the table by the seat that held it. A played card stays where it is.
pub proof fn lemma_ledger_moves_forward(d: DealView, id: u8, i: int)
    requires
        d.wf(),
        d.action_error(id) is None,
        0 <= i < 52,
    ensures
        d.ledger[i] matches Some(CardLocation::Played(_)) ==> d.after_action(id).ledger[i]
            == d.ledger[i],
        d.ledger[i] matches Some(CardLocation::Owned(s)) ==> (d.after_action(id).ledger[i]
            == Some(CardLocation::Owned(s)) || d.after_action(id).ledger[i] == Some(
            CardLocation::Played(s),
        )),
{
}

} // verus!
