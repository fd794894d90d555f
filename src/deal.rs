use vstd::prelude::*;

use crate::auction::{bid_of_id, strain_name, level_name, call_of_id, Bid, Call, FirstMentioned, Strain, PASS_ID};
use crate::cards::{
    card_of_id, lemma_card_id_injective, seat_name, seat_of_index, Card, Seat, Suit, Vulnerability,
};
use crate::deck::{is_full_deck, Deck};
use crate::random::{new_rng, random_below};
use crate::error::GameError;

verus! {

broadcast use crate::auction::lemma_first_mentioned_set;

/// Where a dealt card is: in a seat's hand, or played by it.
#[derive(Clone, Copy, Debug, PartialEq, Eq, Structural)]
pub enum CardLocation {
    Owned(Seat),
    Played(Seat),
}

/// One accepted action: who acted, and the action's id.
#[derive(Clone, Copy, Debug, PartialEq, Eq, Structural)]
pub struct HistoryEvent {
    pub actor: Seat,
    pub action: u8,
}

/// The trick in progress: its suit, how many cards it holds, and the card that wins it so far.
#[derive(Clone, Copy, Debug, PartialEq, Eq)]
pub struct Trick {
    pub cards_played: usize,
    pub suit: Suit,
    pub winning_card: Card,
    pub winning_seat: Seat,
}

/// The phase of a deal, with the data that only that phase has.
#[derive(Clone, Copy, Debug, PartialEq, Eq)]
pub enum DealState {
    Bidding {
        next_to_bid: Seat,
        last_bid: Option<(Bid, Seat, Call)>,
        first_mentioned: FirstMentioned,
        pass_count: u8,
    },
    Playing { trump: Strain, next_to_play: Seat, tricks_played: u8, contract: (Bid, Seat, Call) },
    Scoring,
}

/// Number of cards in a deck.
pub const CARDS_IN_DECK: usize = 52;

/// Cards dealt to each seat.
pub const INITIAL_DEAL: usize = 13;

/// Offset of the card plays among action ids.
pub const PLAY_BASE: u8 = 38;

/// One deal of bridge, from the deal through the auction and the play.
#[derive(Debug, PartialEq)]
pub struct Deal {
    vulnerability: Vulnerability,
    dealt_cards: [Option<CardLocation>; 52],
    no_cards: [bool; 16],
    deal_state: DealState,
    trick: Option<Trick>,
    tricks_won: [u8; 4],
    events: Vec<HistoryEvent>,
    card_count: [u8; 4],
}

/// The content of a deal.
pub struct DealView {
    pub vulnerability: Vulnerability,
    /// Location of each card, by card id.
    pub ledger: Seq<Option<CardLocation>>,
    /// Whether a seat has shown out of a suit, at four entries per seat.
    pub no_cards: Seq<bool>,
    pub state: DealState,
    pub trick: Option<Trick>,
    pub tricks_won: Seq<u8>,
    pub card_count: Seq<u8>,
    pub events: Seq<HistoryEvent>,
}

impl View for Deal {
    type V = DealView;

    closed spec fn view(&self) -> DealView {
        DealView {
            vulnerability: self.vulnerability,
            ledger: self.dealt_cards@,
            no_cards: self.no_cards@,
            state: self.deal_state,
            trick: self.trick,
            tricks_won: self.tricks_won@,
            card_count: self.card_count@,
            events: self.events@,
        }
    }
}

pub open spec fn no_card_index(seat: Seat, suit: Suit) -> int {
    seat.spec_index() * 4 + suit.spec_index()
}

/// A trick's winner so far is replaced by `card` exactly when this holds.
pub open spec fn beats(card: Card, best: Card, trump: Strain) -> bool {
    if trump == Strain::Suit(card.suit) && best.suit != card.suit {
        true
    } else if card.suit != best.suit {
        false
    } else {
        card.rank.spec_index() > best.rank.spec_index()
    }
}

impl DealView {
    pub open spec fn location(self, card: Card) -> Option<CardLocation> {
        self.ledger[card.spec_id()]
    }

    /// The `i`th card slot of `suit` in the ledger.
    pub open spec fn slot(self, suit: Suit, i: int) -> Option<CardLocation> {
        self.ledger[suit.spec_index() * 13 + i]
    }

    pub open spec fn no_card(self, seat: Seat, suit: Suit) -> bool {
        self.no_cards[no_card_index(seat, suit)]
    }

    pub open spec fn count(self, seat: Seat) -> int {
        self.card_count[seat.spec_index()] as int
    }

    pub open spec fn won(self, seat: Seat) -> int {
        self.tricks_won[seat.spec_index()] as int
    }

    /// Whether `seat` holds a card of `suit` that it has not played.
    pub open spec fn holds_suit(self, seat: Seat, suit: Suit) -> bool {
        exists|i: int| 0 <= i < 13 && #[trigger] self.slot(suit, i) == Some(CardLocation::Owned(seat))
    }

    pub open spec fn next_to_act(self) -> Option<Seat> {
        match self.state {
            DealState::Bidding { next_to_bid, .. } => Some(next_to_bid),
            DealState::Playing { next_to_play, .. } => Some(next_to_play),
            DealState::Scoring => None,
        }
    }

    /// Tricks completed: none while bidding, all once the deal is over.
    pub open spec fn tricks_done(self) -> int {
        match self.state {
            DealState::Bidding { .. } => 0,
            DealState::Playing { tricks_played, .. } => tricks_played as int,
            DealState::Scoring => 13,
        }
    }

    pub open spec fn wf(self) -> bool {
        &&& self.ledger.len() == 52
        &&& self.no_cards.len() == 16
        &&& self.tricks_won.len() == 4
        &&& self.card_count.len() == 4
        &&& forall|i: int| 0 <= i < 4 ==> #[trigger] self.card_count[i] <= 13
        &&& forall|i: int| 0 <= i < 4 ==> #[trigger] self.tricks_won[i] <= self.tricks_done()
        &&& match self.state {
            DealState::Bidding { pass_count, last_bid, .. } => {
                &&& self.trick is None
                &&& pass_count <= 3
                &&& last_bid is Some ==> pass_count <= 2
            },
            DealState::Playing { tricks_played, .. } => {
                &&& tricks_played < 13
                &&& self.trick is Some ==> 1 <= self.trick->Some_0.cards_played <= 3
            },
            DealState::Scoring => self.trick is None,
        }
    }

    /// The error that giving `card` to `seat` meets, if any.
    pub open spec fn give_error(self, seat: Seat, card: Card) -> Option<GameError> {
        if self.count(seat) == 13 {
            Some(GameError::FourteenCards { seat, card })
        } else if self.no_card(seat, card.suit) {
            Some(GameError::Revoked { card, give_to: seat, revoked: card.suit })
        } else {
            match self.location(card) {
                Some(CardLocation::Played(who)) => Some(
                    GameError::AlreadyPlayed { card, assign_to: seat, played_by: who },
                ),
                Some(CardLocation::Owned(who)) => Some(
                    GameError::AlreadyHeld { card, assign_to: seat, held_by: who },
                ),
                None => None,
            }
        }
    }

    /// The deal after `card` went to `seat`.
    pub open spec fn after_give(self, seat: Seat, card: Card) -> DealView {
        DealView {
            ledger: self.ledger.update(card.spec_id(), Some(CardLocation::Owned(seat))),
            card_count: self.card_count.update(seat.spec_index(), (self.count(seat) + 1) as u8),
            ..self
        }
    }

    /// The error that playing `card` meets, if any.
    pub open spec fn play_error(self, card: Card) -> Option<GameError> {
        match self.state {
            DealState::Playing { next_to_play, .. } => {
                let p = next_to_play;
                if self.location(card) matches Some(CardLocation::Played(_)) {
                    Some(GameError::ActionAlreadyPlayed { card })
                } else if self.location(card) != Some(CardLocation::Owned(p)) && self.give_error(
                    p,
                    card,
                ) is Some {
                    self.give_error(p, card)
                } else if self.trick is Some && self.trick->Some_0.suit != card.suit
                    && self.holds_suit(p, self.trick->Some_0.suit) {
                    Some(GameError::ActionRevoked { card, played_by: p })
                } else {
                    None
                }
            },
            _ => Some(GameError::InvalidState),
        }
    }

    /// The deal after the player to act played `card`.
    pub open spec fn after_play(self, card: Card) -> DealView {
        match self.state {
            DealState::Playing { next_to_play: p, tricks_played, trump, contract } => {
                let dealt = if self.location(card) == Some(CardLocation::Owned(p)) {
                    self
                } else {
                    self.after_give(p, card)
                };
                let shown = match self.trick {
                    Some(t) => if t.suit != card.suit {
                        dealt.no_cards.update(no_card_index(p, t.suit), true)
                    } else {
                        dealt.no_cards
                    },
                    None => dealt.no_cards,
                };
                let ledger = dealt.ledger.update(card.spec_id(), Some(CardLocation::Played(p)));
                let events = self.events.push(
                    HistoryEvent { actor: p, action: (card.spec_id() + PLAY_BASE) as u8 },
                );
                match self.trick {
                    None => DealView {
                        ledger,
                        no_cards: shown,
                        trick: Some(
                            Trick {
                                cards_played: 1,
                                suit: card.suit,
                                winning_card: card,
                                winning_seat: p,
                            },
                        ),
                        state: DealState::Playing {
                            next_to_play: p.spec_next(),
                            tricks_played,
                            trump,
                            contract,
                        },
                        events,
                        ..dealt
                    },
                    Some(t) => {
                        let best = if beats(card, t.winning_card, trump) {
                            Trick { winning_card: card, winning_seat: p, ..t }
                        } else {
                            t
                        };
                        if t.cards_played == 3 {
                            let w = best.winning_seat;
                            DealView {
                                ledger,
                                no_cards: shown,
                                trick: None,
                                tricks_won: self.tricks_won.update(
                                    w.spec_index(),
                                    (self.won(w) + 1) as u8,
                                ),
                                state: if tricks_played + 1 == 13 {
                                    DealState::Scoring
                                } else {
                                    DealState::Playing {
                                        next_to_play: w,
                                        tricks_played: (tricks_played + 1) as u8,
                                        trump,
                                        contract,
                                    }
                                },
                                events,
                                ..dealt
                            }
                        } else {
                            DealView {
                                ledger,
                                no_cards: shown,
                                trick: Some(Trick { cards_played: (t.cards_played + 1) as usize, ..best }),
                                state: DealState::Playing {
                                    next_to_play: p.spec_next(),
                                    tricks_played,
                                    trump,
                                    contract,
                                },
                                events,
                                ..dealt
                            }
                        }
                    },
                }
            },
            _ => self,
        }
    }

    /// The error that bidding `bid` meets, if any.
    pub open spec fn bid_error(self, bid: Bid) -> Option<GameError> {
        match self.state {
            DealState::Bidding { last_bid, .. } => match last_bid {
                Some(last) => if bid.spec_id() > last.0.spec_id() {
                    None
                } else {
                    Some(GameError::InsufficientBid)
                },
                None => None,
            },
            _ => Some(GameError::InvalidState),
        }
    }

    /// The deal after the seat to act bid `bid`.
    pub open spec fn after_bid(self, bid: Bid) -> DealView {
        match self.state {
            DealState::Bidding { next_to_bid: n, first_mentioned: fm, .. } => {
                let fm2 = if fm.spec_get(n.spec_partner(), bid.strain) {
                    fm
                } else {
                    fm.spec_set(n, bid.strain)
                };
                DealView {
                    state: DealState::Bidding {
                        next_to_bid: n.spec_next(),
                        last_bid: Some((bid, n, Call::Pass)),
                        first_mentioned: fm2,
                        pass_count: 0,
                    },
                    events: self.events.push(HistoryEvent { actor: n, action: bid.spec_id() as u8 }),
                    ..self
                }
            },
            _ => self,
        }
    }

    /// The error that calling `call` meets, if any.
    pub open spec fn call_error(self, call: Call) -> Option<GameError> {
        match self.state {
            DealState::Bidding { next_to_bid: n, last_bid, .. } => match call {
                Call::Pass => None,
                Call::Double => match last_bid {
                    None => Some(GameError::DoubleOfNoBid),
                    Some((_, bidder, state)) => if state != Call::Pass {
                        Some(GameError::AlreadyDoubled)
                    } else if bidder == n || bidder == n.spec_partner() {
                        Some(GameError::DoubleOfOwnSide)
                    } else {
                        None
                    },
                },
                Call::ReDouble => match last_bid {
                    None => Some(GameError::ReDoubleOfNoBid),
                    Some((_, bidder, state)) => if state != Call::Double {
                        Some(GameError::AlreadyDoubled)
                    } else if bidder != n && bidder != n.spec_partner() {
                        Some(GameError::ReDoubleOfOtherSide)
                    } else {
                        None
                    },
                },
            },
            _ => Some(GameError::InvalidState),
        }
    }

    /// Who declares when the auction ends on `bid` by `bidder`: the partner if the partner
    /// named the strain first, else the bidder.
    pub open spec fn declarer(fm: FirstMentioned, bid: Bid, bidder: Seat) -> Seat {
        if fm.spec_get(bidder.spec_partner(), bid.strain) {
            bidder.spec_partner()
        } else {
            bidder
        }
    }

    /// The deal after the seat to act called `call`.
    pub open spec fn after_call(self, call: Call) -> DealView {
        match self.state {
            DealState::Bidding { next_to_bid: n, last_bid, first_mentioned: fm, pass_count } => {
                let events = self.events.push(
                    HistoryEvent { actor: n, action: call.spec_id() as u8 },
                );
                let state = match call {
                    Call::Pass => if pass_count == 3 {
                        DealState::Scoring
                    } else if pass_count == 2 && last_bid is Some {
                        let (bid, bidder, doubled) = last_bid->Some_0;
                        let declarer = Self::declarer(fm, bid, bidder);
                        DealState::Playing {
                            trump: bid.strain,
                            next_to_play: declarer.spec_next(),
                            tricks_played: 0,
                            contract: (bid, declarer, doubled),
                        }
                    } else {
                        DealState::Bidding {
                            next_to_bid: n.spec_next(),
                            last_bid,
                            first_mentioned: fm,
                            pass_count: (pass_count + 1) as u8,
                        }
                    },
                    _ => {
                        let (bid, bidder, _) = last_bid->Some_0;
                        DealState::Bidding {
                            next_to_bid: n.spec_next(),
                            last_bid: Some((bid, bidder, call)),
                            first_mentioned: fm,
                            pass_count: 0,
                        }
                    },
                };
                DealView { state, events, ..self }
            },
            _ => self,
        }
    }

    /// The error that the action with id `id` meets, if any.
    pub open spec fn action_error(self, id: u8) -> Option<GameError> {
        if self.next_to_act() is None {
            Some(GameError::InvalidState)
        } else if id < PASS_ID {
            self.bid_error(bid_of_id(id as int))
        } else if id < PLAY_BASE {
            self.call_error(call_of_id(id as int))
        } else if id < PLAY_BASE + 52 {
            self.play_error(card_of_id(id - PLAY_BASE))
        } else {
            Some(GameError::InvalidActionId(id))
        }
    }

    /// The deal after the action with id `id`.
    pub open spec fn after_action(self, id: u8) -> DealView {
        if id < PASS_ID {
            self.after_bid(bid_of_id(id as int))
        } else if id < PLAY_BASE {
            self.after_call(call_of_id(id as int))
        } else if id < PLAY_BASE + 52 {
            self.after_play(card_of_id(id - PLAY_BASE))
        } else {
            self
        }
    }

    /// The deal after the actions `ids`, one after the other.
    pub open spec fn replay(self, ids: Seq<u8>) -> DealView
        decreases ids.len(),
    {
        if ids.len() == 0 {
            self
        } else {
            self.replay(ids.drop_last()).after_action(ids.last())
        }
    }

    /// Whether each of the actions `ids` is accepted in turn.
    pub open spec fn accepts(self, ids: Seq<u8>) -> bool
        decreases ids.len(),
    {
        ids.len() == 0 || (self.accepts(ids.drop_last()) && self.replay(ids.drop_last()).action_error(
            ids.last(),
        ) is None)
    }

    /// The actions before position `k` are accepted, and the one at `k` meets `e`.
    pub open spec fn fails_at(self, ids: Seq<u8>, k: int, e: GameError) -> bool {
        &&& 0 <= k < ids.len()
        &&& self.accepts(ids.take(k))
        &&& self.replay(ids.take(k)).action_error(ids[k]) == Some(e)
    }
}

/// A sequence of actions that is accepted is accepted up to any point.
pub proof fn lemma_accepts_prefix(d: DealView, ids: Seq<u8>, k: int)
    requires
        d.accepts(ids),
        0 <= k <= ids.len(),
    ensures
        d.accepts(ids.take(k)),
    decreases ids.len(),
{
    if k == ids.len() {
        assert(ids.take(k) =~= ids);
    } else {
        lemma_accepts_prefix(d, ids.drop_last(), k);
        assert(ids.drop_last().take(k) =~= ids.take(k));
    }
}

/// Nothing bid or played yet, nobody shown out, `dealer` to call first.
pub open spec fn is_unstarted(d: DealView, dealer: Seat, vulnerability: Vulnerability) -> bool {
    &&& d.wf()
    &&& d.vulnerability == vulnerability
    &&& forall|i: int| 0 <= i < 16 ==> !#[trigger] d.no_cards[i]
    &&& forall|i: int| 0 <= i < 4 ==> #[trigger] d.tricks_won[i] == 0
    &&& d.trick is None
    &&& d.events.len() == 0
    &&& d.state matches DealState::Bidding { next_to_bid, last_bid, first_mentioned, pass_count }
        && next_to_bid == dealer && last_bid is None && pass_count == 0 && forall|s: Seat, t: Strain|
        !first_mentioned.spec_get(s, t)
}

/// A fresh deal: unstarted, and no card dealt.
pub open spec fn is_fresh(d: DealView, dealer: Seat, vulnerability: Vulnerability) -> bool {
    &&& is_unstarted(d, dealer, vulnerability)
    &&& forall|i: int| 0 <= i < 52 ==> #[trigger] d.ledger[i] is None
    &&& forall|i: int| 0 <= i < 4 ==> #[trigger] d.card_count[i] == 0
}

/// An unstarted deal in which the `k`th of `cards` went to seat number `k / 13`.
pub open spec fn is_dealt_from(
    d: DealView,
    dealer: Seat,
    vulnerability: Vulnerability,
    cards: Seq<Card>,
) -> bool {
    &&& is_unstarted(d, dealer, vulnerability)
    &&& forall|k: int|
        0 <= k < 52 ==> d.location(#[trigger] cards[k]) == Some(
            CardLocation::Owned(seat_of_index(k / 13)),
        )
    &&& forall|s: Seat| #[trigger] d.count(s) == 13
}

impl Trick {
    /// Whether `card` takes the lead of the trick from its current winner.
    pub fn is_strongest_card(&self, card: Card, trump: Strain) -> (r: bool)
        ensures
            r == beats(card, self.winning_card, trump),
    {
        if trump == Strain::Suit(card.suit) && self.winning_card.suit != card.suit {
            return true;
        }
        if card.suit != self.winning_card.suit {
            return false;
        }
        card.rank.index() > self.winning_card.rank.index()
    }

    pub fn replace_best_card(&mut self, card: Card, seat: Seat)
        ensures
            *final(self) == (Trick { winning_card: card, winning_seat: seat, ..*old(self) }),
    {
        self.winning_card = card;
        self.winning_seat = seat;
    }
}

impl Deal {
    pub open spec fn wf(&self) -> bool {
        self@.wf()
    }

    /// A deal with no card dealt, `dealer` to open the auction.
    pub fn new(dealer: Seat, vulnerability: Vulnerability) -> (r: Deal)
        ensures
            is_fresh(r@, dealer, vulnerability),
    {
        Deal {
            vulnerability,
            dealt_cards: [None; 52],
            no_cards: [false; 16],
            deal_state: DealState::Bidding {
                next_to_bid: dealer,
                last_bid: None,
                first_mentioned: FirstMentioned::default(),
                pass_count: 0,
            },
            trick: None,
            tricks_won: [0; 4],
            events: Vec::new(),
            card_count: [0; 4],
        }
    }

    /// The error that giving `card` to `seat` would meet, if any.
    fn give_check(&self, seat: Seat, card: Card) -> (r: Option<GameError>)
        ensures
            r == self@.give_error(seat, card),
    {
        if self.card_count[seat.index()] == 13 {
            return Some(GameError::FourteenCards { seat, card });
        }
        if self.no_cards[seat.index() * 4 + card.suit.index()] {
            return Some(GameError::Revoked { card, give_to: seat, revoked: card.suit });
        }
        match self.dealt_cards[card.id()] {
            Some(CardLocation::Played(who)) => Some(
                GameError::AlreadyPlayed { card, assign_to: seat, played_by: who },
            ),
            Some(CardLocation::Owned(who)) => Some(
                GameError::AlreadyHeld { card, assign_to: seat, held_by: who },
            ),
            None => None,
        }
    }

    fn apply_give(&mut self, seat: Seat, card: Card)
        requires
            old(self).wf(),
            old(self)@.give_error(seat, card) is None,
        ensures
            final(self)@ == old(self)@.after_give(seat, card),
            final(self).wf(),
    {
        self.dealt_cards[card.id()] = Some(CardLocation::Owned(seat));
        let i = seat.index();
        self.card_count[i] = self.card_count[i] + 1;
        assert(self@.ledger =~= old(self)@.after_give(seat, card).ledger);
        assert(self@.card_count =~= old(self)@.after_give(seat, card).card_count);
    }

    /// Puts a card that nobody has yet in the hand of `seat`.
    pub fn give_card(&mut self, seat: Seat, card: Card) -> (r: Result<(), GameError>)
        requires
            old(self).wf(),
        ensures
            final(self).wf(),
            match old(self)@.give_error(seat, card) {
                Some(e) => r == Err::<(), GameError>(e) && final(self)@ == old(self)@,
                None => r is Ok && final(self)@ == old(self)@.after_give(seat, card),
            },
    {
        match self.give_check(seat, card) {
            Some(e) => Err(e),
            None => {
                self.apply_give(seat, card);
                Ok(())
            },
        }
    }

    /// Whether `seat` holds a card of `suit` that it has not played.
    fn holds_suit(&self, seat: Seat, suit: Suit) -> (r: bool)
        ensures
            r == self@.holds_suit(seat, suit),
    {
        let base = suit.index() * 13;
        let mut i: usize = 0;
        while i < 13
            invariant
                base == suit.spec_index() * 13,
                i <= 13,
                forall|j: int| 0 <= j < i ==> #[trigger] self@.slot(suit, j) != Some(CardLocation::Owned(seat)),
            decreases 13 - i,
        {
            match self.dealt_cards[base + i] {
                Some(CardLocation::Owned(s)) => {
                    if s == seat {
                        assert(self@.slot(suit, i as int) == Some(CardLocation::Owned(seat)));
                        return true;
                    }
                },
                _ => {},
            }
            assert(self@.slot(suit, i as int) != Some(CardLocation::Owned(seat)));
            i += 1;
        }
        false
    }

    /// The player to act plays `card`. A card that nobody holds yet is first given to that
    /// player, so that hands can be supplied as the play goes.
    pub fn execute_play_action(&mut self, card: Card) -> (r: Result<(), GameError>)
        requires
            old(self).wf(),
        ensures
            final(self).wf(),
            match old(self)@.play_error(card) {
                Some(e) => r == Err::<(), GameError>(e) && final(self)@ == old(self)@,
                None => r is Ok && final(self)@ == old(self)@.after_play(card),
            },
    {
        let ghost start = self@;
        let (p, tricks_played, trump, contract) = match self.deal_state {
            DealState::Playing { next_to_play, tricks_played, trump, contract } => (
                next_to_play,
                tricks_played,
                trump,
                contract,
            ),
            _ => return Err(GameError::InvalidState),
        };
        let id = card.id();
        let owned = match self.dealt_cards[id] {
            Some(CardLocation::Played(_)) => {
                return Err(GameError::ActionAlreadyPlayed { card });
            },
            Some(CardLocation::Owned(who)) => who == p,
            None => false,
        };
        if !owned {
            match self.give_check(p, card) {
                Some(e) => return Err(e),
                None => {},
            }
        }
        let led = match self.trick {
            Some(t) => if t.suit != card.suit {
                Some(t.suit)
            } else {
                None
            },
            None => None,
        };
        match led {
            Some(suit) => {
                if self.holds_suit(p, suit) {
                    return Err(GameError::ActionRevoked { card, played_by: p });
                }
            },
            None => {},
        }
        if !owned {
            self.apply_give(p, card);
        }
        match led {
            Some(suit) => {
                self.no_cards[p.index() * 4 + suit.index()] = true;
            },
            None => {},
        }
        self.dealt_cards[id] = Some(CardLocation::Played(p));
        match self.trick {
            None => {
                self.trick = Some(
                    Trick { cards_played: 1, suit: card.suit, winning_card: card, winning_seat: p },
                );
                self.deal_state = DealState::Playing {
                    next_to_play: p.next_seat(),
                    tricks_played,
                    trump,
                    contract,
                };
            },
            Some(t) => {
                let mut best = t;
                if t.is_strongest_card(card, trump) {
                    best.replace_best_card(card, p);
                }
                if t.cards_played == 3 {
                    let w = best.winning_seat.index();
                    self.tricks_won[w] = self.tricks_won[w] + 1;
                    self.trick = None;
                    self.deal_state = if tricks_played + 1 == 13 {
                        DealState::Scoring
                    } else {
                        DealState::Playing {
                            next_to_play: best.winning_seat,
                            tricks_played: tricks_played + 1,
                            trump,
                            contract,
                        }
                    };
                } else {
                    best.cards_played = t.cards_played + 1;
                    self.trick = Some(best);
                    self.deal_state = DealState::Playing {
                        next_to_play: p.next_seat(),
                        tricks_played,
                        trump,
                        contract,
                    };
                }
            },
        }
        self.events.push(HistoryEvent { actor: p, action: id as u8 + PLAY_BASE });
        let ghost target = start.after_play(card);
        assert(self@.ledger =~= target.ledger);
        assert(self@.no_cards =~= target.no_cards);
        assert(self@.tricks_won =~= target.tricks_won);
        assert(self@.card_count =~= target.card_count);
        assert(self@.events =~= target.events);
        Ok(())
    }

    /// The seat to act bids `bid`, which must rank above any earlier bid.
    pub fn execute_bid_action(&mut self, bid: Bid) -> (r: Result<(), GameError>)
        requires
            old(self).wf(),
        ensures
            final(self).wf(),
            match old(self)@.bid_error(bid) {
                Some(e) => r == Err::<(), GameError>(e) && final(self)@ == old(self)@,
                None => r is Ok && final(self)@ == old(self)@.after_bid(bid),
            },
    {
        let (bidder, last_bid, first_mentioned) = match self.deal_state {
            DealState::Bidding { next_to_bid, last_bid, first_mentioned, .. } => (
                next_to_bid,
                last_bid,
                first_mentioned,
            ),
            _ => return Err(GameError::InvalidState),
        };
        match last_bid {
            Some(last) => {
                if !bid.is_above(&last.0) {
                    return Err(GameError::InsufficientBid);
                }
            },
            None => {},
        }
        let mut fm = first_mentioned;
        if !fm.get(bidder.partner(), bid.strain) {
            fm.set(bidder, bid.strain);
        }
        self.deal_state = DealState::Bidding {
            next_to_bid: bidder.next_seat(),
            last_bid: Some((bid, bidder, Call::Pass)),
            first_mentioned: fm,
            pass_count: 0,
        };
        self.events.push(HistoryEvent { actor: bidder, action: bid.id() });
        Ok(())
    }

    /// The seat to act passes, doubles or redoubles.
    pub fn execute_call_action(&mut self, call: Call) -> (r: Result<(), GameError>)
        requires
            old(self).wf(),
        ensures
            final(self).wf(),
            match old(self)@.call_error(call) {
                Some(e) => r == Err::<(), GameError>(e) && final(self)@ == old(self)@,
                None => r is Ok && final(self)@ == old(self)@.after_call(call),
            },
    {
        let (caller, last_bid, first_mentioned, pass_count) = match self.deal_state {
            DealState::Bidding { next_to_bid, last_bid, first_mentioned, pass_count } => (
                next_to_bid,
                last_bid,
                first_mentioned,
                pass_count,
            ),
            _ => return Err(GameError::InvalidState),
        };
        match call {
            Call::Pass => {
                if pass_count == 3 {
                    self.deal_state = DealState::Scoring;
                } else {
                    match last_bid {
                        Some((bid, bidder, doubled)) if pass_count == 2 => {
                            let partner = bidder.partner();
                            let declarer = if first_mentioned.get(partner, bid.strain) {
                                partner
                            } else {
                                bidder
                            };
                            self.deal_state = DealState::Playing {
                                trump: bid.strain,
                                next_to_play: declarer.next_seat(),
                                tricks_played: 0,
                                contract: (bid, declarer, doubled),
                            };
                        },
                        _ => {
                            self.deal_state = DealState::Bidding {
                                next_to_bid: caller.next_seat(),
                                last_bid,
                                first_mentioned,
                                pass_count: pass_count + 1,
                            };
                        },
                    }
                }
            },
            Call::Double => match last_bid {
                None => return Err(GameError::DoubleOfNoBid),
                Some((bid, bidder, doubled)) => {
                    if doubled != Call::Pass {
                        return Err(GameError::AlreadyDoubled);
                    }
                    if bidder == caller || bidder == caller.partner() {
                        return Err(GameError::DoubleOfOwnSide);
                    }
                    self.deal_state = DealState::Bidding {
                        next_to_bid: caller.next_seat(),
                        last_bid: Some((bid, bidder, Call::Double)),
                        first_mentioned,
                        pass_count: 0,
                    };
                },
            },
            Call::ReDouble => match last_bid {
                None => return Err(GameError::ReDoubleOfNoBid),
                Some((bid, bidder, doubled)) => {
                    if doubled != Call::Double {
                        return Err(GameError::AlreadyDoubled);
                    }
                    if bidder != caller && bidder != caller.partner() {
                        return Err(GameError::ReDoubleOfOtherSide);
                    }
                    self.deal_state = DealState::Bidding {
                        next_to_bid: caller.next_seat(),
                        last_bid: Some((bid, bidder, Call::ReDouble)),
                        first_mentioned,
                        pass_count: 0,
                    };
                },
            },
        }
        self.events.push(HistoryEvent { actor: caller, action: call.id() });
        Ok(())
    }

    /// The action with id `id`, as a bid, a call or a card play.
    pub fn execute_action_id(&mut self, id: u8) -> (r: Result<(), GameError>)
        requires
            old(self).wf(),
        ensures
            final(self).wf(),
            match old(self)@.action_error(id) {
                Some(e) => r == Err::<(), GameError>(e) && final(self)@ == old(self)@,
                None => r is Ok && final(self)@ == old(self)@.after_action(id),
            },
    {
        if self.next_to_act().is_none() {
            return Err(GameError::InvalidState);
        }
        if id < PASS_ID {
            self.execute_bid_action(Bid::from_id(id))
        } else if id < PLAY_BASE {
            self.execute_call_action(Call::from_id(id))
        } else if id < PLAY_BASE + 52 {
            self.execute_play_action(Card::from_id(id - PLAY_BASE))
        } else {
            Err(GameError::InvalidActionId(id))
        }
    }

    /// Applies the actions `actions` in order. At the first that fails, stops with its
    /// position; the actions before it stay applied.
    pub fn execute_actions_ids(&mut self, actions: &[u8]) -> (r: Result<(), GameError>)
        requires
            old(self).wf(),
        ensures
            final(self).wf(),
            r is Ok <==> old(self)@.accepts(actions@),
            r is Ok ==> final(self)@ == old(self)@.replay(actions@),
            r is Err ==> r->Err_0 is BatchError && old(self)@.fails_at(
                actions@,
                r->Err_0->BatchError_position as int,
                *r->Err_0->BatchError_error,
            ) && final(self)@ == old(self)@.replay(
                actions@.take(r->Err_0->BatchError_position as int),
            ),
    {
        let ghost start = self@;
        let mut i: usize = 0;
        while i < actions.len()
            invariant
                self.wf(),
                start == old(self)@,
                i <= actions@.len(),
                start.accepts(actions@.take(i as int)),
                self@ == start.replay(actions@.take(i as int)),
            decreases actions@.len() - i,
        {
            let id = actions[i];
            proof {
                assert(actions@.take(i + 1).drop_last() =~= actions@.take(i as int));
                assert(actions@.take(i + 1).last() == id);
            }
            match self.execute_action_id(id) {
                Err(e) => {
                    proof {
                        assert(!start.accepts(actions@.take(i + 1)));
                        if start.accepts(actions@) {
                            lemma_accepts_prefix(start, actions@, i + 1);
                        }
                        assert(start.fails_at(actions@, i as int, e));
                    }
                    return Err(GameError::BatchError { position: i, error: Box::new(e) });
                },
                Ok(()) => {},
            }
            i += 1;
        }
        assert(actions@.take(actions@.len() as int) =~= actions@);
        Ok(())
    }

    /// Deals `deck` in order, thirteen cards to each seat from South round to East.
    pub fn from_deck(dealer: Seat, vulnerability: Vulnerability, deck: &Deck) -> (r: Deal)
        requires
            deck.cards@.len() == 52,
            deck.cards@.no_duplicates(),
        ensures
            is_dealt_from(r@, dealer, vulnerability, deck.cards@),
    {
        let mut deal = Deal::new(dealer, vulnerability);
        let ghost cards = deck.cards@;
        let mut k: usize = 0;
        while k < 52
            invariant
                k <= 52,
                cards == deck.cards@,
                cards.len() == 52,
                cards.no_duplicates(),
                deal.wf(),
                is_unstarted(deal@, dealer, vulnerability),
                forall|m: int|
                    0 <= m < k ==> deal@.location(#[trigger] cards[m]) == Some(
                        CardLocation::Owned(seat_of_index(m / 13)),
                    ),
                forall|m: int| k <= m < 52 ==> deal@.location(#[trigger] cards[m]) is None,
                forall|t: int|
                    0 <= t < 4 ==> #[trigger] deal@.card_count[t] == (if t < k / 13 {
                        13
                    } else if t == k / 13 {
                        k % 13
                    } else {
                        0
                    }),
            decreases 52 - k,
        {
            let seat = Seat::from_index((k / 13) as u8);
            let card = deck.cards[k];
            let ghost before = deal@;
            assert(!before.no_card(seat, card.suit));
            let r = deal.give_card(seat, card);
            assert(r is Ok);
            proof {
                assert forall|m: int| 0 <= m < 52 && m != k implies deal@.location(#[trigger] cards[m])
                    == before.location(cards[m]) by {
                    lemma_card_id_injective(cards[m], card);
                }
            }
            k += 1;
        }
        proof {
            assert forall|s: Seat| #[trigger] deal@.count(s) == 13 by {
                assert(deal@.card_count[s.spec_index()] == 13);
            }
        }
        deal
    }

    /// A deal with a random dealer and vulnerability, and a shuffled deck dealt out.
    pub fn random_deal() -> (r: Deal)
        ensures
            exists|dealer: Seat, vulnerability: Vulnerability, cards: Seq<Card>|
                is_full_deck(cards) && is_dealt_from(r@, dealer, vulnerability, cards),
    {
        let mut rng = new_rng();
        let dealer = Seat::from_index(random_below(&mut rng, 4));
        let vulnerability = Vulnerability::from_index(random_below(&mut rng, 4));
        let deck = Deck::shuffled(&mut rng);
        let deal = Deal::from_deck(dealer, vulnerability, &deck);
        assert(is_full_deck(deck.cards@) && is_dealt_from(deal@, dealer, vulnerability, deck.cards@));
        deal
    }

    /// An independent copy of the deal.
    pub fn deepcopy(&self) -> (r: Deal)
        ensures
            r@ == self@,
    {
        let mut events: Vec<HistoryEvent> = Vec::new();
        let mut i: usize = 0;
        while i < self.events.len()
            invariant
                i <= self.events@.len(),
                events@ =~= self.events@.take(i as int),
            decreases self.events@.len() - i,
        {
            events.push(self.events[i]);
            i += 1;
        }
        assert(self.events@.take(self.events@.len() as int) =~= self.events@);
        Deal {
            vulnerability: self.vulnerability,
            dealt_cards: self.dealt_cards,
            no_cards: self.no_cards,
            deal_state: self.deal_state,
            trick: self.trick,
            tricks_won: self.tricks_won,
            events,
            card_count: self.card_count,
        }
    }

    /// Whether the two deals are in the same state with the same history.
    pub fn equals(&self, other: &Deal) -> (r: bool)
        ensures
            r == (self@ == other@),
    {
        let mut i: usize = 0;
        while i < 52
            invariant
                i <= 52,
                forall|j: int| 0 <= j < i ==> self@.ledger[j] == other@.ledger[j],
            decreases 52 - i,
        {
            let same = match (self.dealt_cards[i], other.dealt_cards[i]) {
                (None, None) => true,
                (Some(CardLocation::Owned(a)), Some(CardLocation::Owned(b))) => a == b,
                (Some(CardLocation::Played(a)), Some(CardLocation::Played(b))) => a == b,
                _ => false,
            };
            if !same {
                return false;
            }
            i += 1;
        }
        assert(self@.ledger =~= other@.ledger);
        let mut i: usize = 0;
        while i < 16
            invariant
                i <= 16,
                forall|j: int| 0 <= j < i ==> self@.no_cards[j] == other@.no_cards[j],
            decreases 16 - i,
        {
            if self.no_cards[i] != other.no_cards[i] {
                return false;
            }
            i += 1;
        }
        assert(self@.no_cards =~= other@.no_cards);
        let mut i: usize = 0;
        while i < 4
            invariant
                i <= 4,
                forall|j: int| 0 <= j < i ==> self@.tricks_won[j] == other@.tricks_won[j],
                forall|j: int| 0 <= j < i ==> self@.card_count[j] == other@.card_count[j],
            decreases 4 - i,
        {
            if self.tricks_won[i] != other.tricks_won[i] || self.card_count[i] != other.card_count[i] {
                return false;
            }
            i += 1;
        }
        assert(self@.tricks_won =~= other@.tricks_won);
        assert(self@.card_count =~= other@.card_count);
        if self.events.len() != other.events.len() {
            return false;
        }
        let mut i: usize = 0;
        while i < self.events.len()
            invariant
                i <= self@.events.len(),
                self@.events.len() == other@.events.len(),
                forall|j: int| 0 <= j < i ==> self@.events[j] == other@.events[j],
            decreases self@.events.len() - i,
        {
            if self.events[i] != other.events[i] {
                return false;
            }
            i += 1;
        }
        assert(self@.events =~= other@.events);
        self.vulnerability == other.vulnerability && same_trick(&self.trick, &other.trick)
            && same_state(&self.deal_state, &other.deal_state)
    }

    /// The strain of the contract, once the auction is over and until the play ends.
    pub fn contract_strain(&self) -> (r: Option<String>)
        ensures
            r is Some <==> self@.state is Playing,
            r is Some ==> r->Some_0@ == strain_name(self@.state->contract.0.strain)@,
    {
        match self.deal_state {
            DealState::Playing { contract, .. } => Some(contract.0.strain.as_string()),
            _ => None,
        }
    }

    /// The level of the contract, once the auction is over and until the play ends.
    pub fn contract_level(&self) -> (r: Option<String>)
        ensures
            r is Some <==> self@.state is Playing,
            r is Some ==> r->Some_0@ == level_name(self@.state->contract.0.level)@,
    {
        match self.deal_state {
            DealState::Playing { contract, .. } => Some(contract.0.level.as_string()),
            _ => None,
        }
    }

    /// The declarer, once the auction is over and until the play ends.
    pub fn contract_seat(&self) -> (r: Option<String>)
        ensures
            r is Some <==> self@.state is Playing,
            r is Some ==> r->Some_0@ == seat_name(self@.state->contract.1)@,
    {
        match self.deal_state {
            DealState::Playing { contract, .. } => Some(contract.1.as_string()),
            _ => None,
        }
    }

    /// Number of actions accepted so far.
    pub fn num_actions(&self) -> (r: usize)
        ensures
            r == self@.events.len(),
    {
        self.events.len()
    }

    /// The seat to act, or none once the deal is over.
    pub fn next_to_act(&self) -> (r: Option<Seat>)
        ensures
            r == self@.next_to_act(),
    {
        match self.deal_state {
            DealState::Bidding { next_to_bid, .. } => Some(next_to_bid),
            DealState::Playing { next_to_play, .. } => Some(next_to_play),
            DealState::Scoring => None,
        }
    }

    /// Passes since the last bid, double or redouble; only while bidding.
    pub fn pass_position(&self) -> (r: Option<u8>)
        ensures
            r == (match self@.state {
                DealState::Bidding { pass_count, .. } => Some(pass_count),
                _ => None,
            }),
    {
        match self.deal_state {
            DealState::Bidding { pass_count, .. } => Some(pass_count),
            _ => None,
        }
    }

    /// Tricks won by each seat, in seat order.
    pub fn tricks_won(&self) -> (r: [u8; 4])
        ensures
            r@ == self@.tricks_won,
    {
        self.tricks_won
    }

    /// The id of the action at `position` of the history.
    pub fn action(&self, position: usize) -> (r: Result<u8, GameError>)
        ensures
            position < self@.events.len() ==> r == Ok::<u8, GameError>(
                self@.events[position as int].action,
            ),
            position >= self@.events.len() ==> r == Err::<u8, GameError>(
                GameError::NoSuchAction(position),
            ),
    {
        if position < self.events.len() {
            Ok(self.events[position].action)
        } else {
            Err(GameError::NoSuchAction(position))
        }
    }
}

fn same_trick(a: &Option<Trick>, b: &Option<Trick>) -> (r: bool)
    ensures
        r == (*a == *b),
{
    match (a, b) {
        (None, None) => true,
        (Some(x), Some(y)) => x.cards_played == y.cards_played && x.suit == y.suit
            && x.winning_card == y.winning_card && x.winning_seat == y.winning_seat,
        _ => false,
    }
}

fn same_contract(a: &(Bid, Seat, Call), b: &(Bid, Seat, Call)) -> (r: bool)
    ensures
        r == (*a == *b),
{
    a.0 == b.0 && a.1 == b.1 && a.2 == b.2
}

fn same_state(a: &DealState, b: &DealState) -> (r: bool)
    ensures
        r == (*a == *b),
{
    match (a, b) {
        (
            DealState::Bidding {
                next_to_bid: n1,
                last_bid: l1,
                first_mentioned: f1,
                pass_count: pc1,
            },
            DealState::Bidding {
                next_to_bid: n2,
                last_bid: l2,
                first_mentioned: f2,
                pass_count: pc2,
            },
        ) => {
            let same_last = match (l1, l2) {
                (None, None) => true,
                (Some(x), Some(y)) => same_contract(x, y),
                _ => false,
            };
            n1 == n2 && same_last && f1.same(f2) && pc1 == pc2
        },
        (
            DealState::Playing { trump: t1, next_to_play: n1, tricks_played: k1, contract: c1 },
            DealState::Playing { trump: t2, next_to_play: n2, tricks_played: k2, contract: c2 },
        ) => t1 == t2 && n1 == n2 && k1 == k2 && same_contract(c1, c2),
        (DealState::Scoring, DealState::Scoring) => true,
        _ => false,
    }
}

} // verus!
