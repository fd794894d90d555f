use vstd::prelude::*;

use crate::cards::{rank_of_index, suit_of_index, Card, Rank, Suit};
use crate::random::shuffle_cards;

verus! {

/// An ordered collection of cards.
#[derive(Debug, PartialEq)]
pub struct Deck {
    pub cards: Vec<Card>,
}

/// Why deck notation could not be read.
#[derive(Clone, Copy, Debug, PartialEq, Eq, Structural)]
pub enum NotationError {
    /// The text does not split into pairs.
    OddLength,
    /// The first character of a pair names no rank.
    InvalidRankChar,
    /// The second character of a pair names no suit.
    InvalidSuitChar,
}

/// The `i`th card of the unshuffled deck: ranks in order, the four suits within each rank.
pub open spec fn canonical_card(i: int) -> Card {
    Card { suit: suit_of_index(i % 4), rank: rank_of_index(i / 4) }
}

pub open spec fn canonical_deck() -> Seq<Card> {
    Seq::new(52, |i: int| canonical_card(i))
}

/// The cards of a full deck, each once.
pub open spec fn is_full_deck(cards: Seq<Card>) -> bool {
    &&& cards.len() == 52
    &&& cards.no_duplicates()
    &&& cards.to_multiset() == canonical_deck().to_multiset()
}

pub proof fn lemma_canonical_no_duplicates()
    ensures
        canonical_deck().no_duplicates(),
{
    assert forall|i: int, j: int| 0 <= i < 52 && 0 <= j < 52 && i != j implies canonical_deck()[i]
        != canonical_deck()[j] by {
        let a = canonical_card(i);
        let b = canonical_card(j);
        assert(a.suit.spec_index() == i % 4);
        assert(b.suit.spec_index() == j % 4);
        assert(a.rank.spec_index() == i / 4);
        assert(b.rank.spec_index() == j / 4);
    }
}

/// Rank of a notation character: a digit from 2 to 9, or T, J, Q, K, A.
pub open spec fn rank_of_byte(b: u8) -> Option<Rank> {
    if 50 <= b <= 57 {
        Some(rank_of_index(b - 50))
    } else if b == 84 {
        Some(Rank::Ten)
    } else if b == 74 {
        Some(Rank::Jack)
    } else if b == 81 {
        Some(Rank::Queen)
    } else if b == 75 {
        Some(Rank::King)
    } else if b == 65 {
        Some(Rank::Ace)
    } else {
        None
    }
}

/// Suit of a notation character: C, D, H or S.
pub open spec fn suit_of_byte(b: u8) -> Option<Suit> {
    if b == 67 {
        Some(Suit::Club)
    } else if b == 68 {
        Some(Suit::Diamond)
    } else if b == 72 {
        Some(Suit::Heart)
    } else if b == 83 {
        Some(Suit::Spade)
    } else {
        None
    }
}

/// The card a pair of characters names; a bad rank is reported before a bad suit.
pub open spec fn pair_result(rank: u8, suit: u8) -> Result<Card, NotationError> {
    match rank_of_byte(rank) {
        None => Err(NotationError::InvalidRankChar),
        Some(r) => match suit_of_byte(suit) {
            None => Err(NotationError::InvalidSuitChar),
            Some(s) => Ok(Card { suit: s, rank: r }),
        },
    }
}

/// The cards that the first `n` pairs of `v` name, or the error of the first bad pair.
pub open spec fn pairs_result(v: Seq<u8>, n: nat) -> Result<Seq<Card>, NotationError>
    decreases n,
{
    if n == 0 {
        Ok(Seq::empty())
    } else {
        match pairs_result(v, (n - 1) as nat) {
            Err(e) => Err(e),
            Ok(cards) => match pair_result(v[2 * n - 2], v[2 * n - 1]) {
                Err(e) => Err(e),
                Ok(c) => Ok(cards.push(c)),
            },
        }
    }
}

/// What deck notation `v` reads as.
pub open spec fn notation_result(v: Seq<u8>) -> Result<Seq<Card>, NotationError> {
    if v.len() % 2 != 0 {
        Err(NotationError::OddLength)
    } else {
        pairs_result(v, v.len() / 2)
    }
}

/// Joins two results, keeping the first error.
pub fn flatten<T, U, E>(input: (Result<T, E>, Result<U, E>)) -> (r: Result<(T, U), E>)
    ensures
        r == (match input {
            (Ok(left), Ok(right)) => Ok((left, right)),
            (Err(e), _) => Err(e),
            (Ok(_), Err(e)) => Err(e),
        }),
{
    match input.0 {
        Ok(left) => match input.1 {
            Ok(right) => Ok((left, right)),
            Err(e) => Err(e),
        },
        Err(e) => Err(e),
    }
}

fn rank_from_byte(b: u8) -> (r: Result<Rank, NotationError>)
    ensures
        r == (match rank_of_byte(b) {
            Some(k) => Ok(k),
            None => Err(NotationError::InvalidRankChar),
        }),
{
    if 50 <= b && b <= 57 {
        Ok(Rank::from_index(b - 50))
    } else if b == 84 {
        Ok(Rank::Ten)
    } else if b == 74 {
        Ok(Rank::Jack)
    } else if b == 81 {
        Ok(Rank::Queen)
    } else if b == 75 {
        Ok(Rank::King)
    } else if b == 65 {
        Ok(Rank::Ace)
    } else {
        Err(NotationError::InvalidRankChar)
    }
}

fn suit_from_byte(b: u8) -> (r: Result<Suit, NotationError>)
    ensures
        r == (match suit_of_byte(b) {
            Some(s) => Ok(s),
            None => Err(NotationError::InvalidSuitChar),
        }),
{
    if b == 67 {
        Ok(Suit::Club)
    } else if b == 68 {
        Ok(Suit::Diamond)
    } else if b == 72 {
        Ok(Suit::Heart)
    } else if b == 83 {
        Ok(Suit::Spade)
    } else {
        Err(NotationError::InvalidSuitChar)
    }
}

impl Deck {
    /// The unshuffled deck.
    pub fn default() -> (r: Deck)
        ensures
            r.cards@ == canonical_deck(),
    {
        let mut cards: Vec<Card> = Vec::new();
        let mut i: u8 = 0;
        while i < 52
            invariant
                i <= 52,
                cards@ =~= canonical_deck().take(i as int),
            decreases 52 - i,
        {
            cards.push(Card { suit: Suit::from_index(i % 4), rank: Rank::from_index(i / 4) });
            i += 1;
        }
        assert(canonical_deck().take(52) =~= canonical_deck());
        Deck { cards }
    }

    /// The full deck in an order drawn from `rng`.
    pub fn shuffled(rng: &mut rand::rngs::ThreadRng) -> (r: Deck)
        ensures
            is_full_deck(r.cards@),
    {
        let mut deck = Deck::default();
        shuffle_cards(&mut deck.cards, rng);
        proof {
            lemma_canonical_no_duplicates();
            canonical_deck().lemma_multiset_has_no_duplicates();
            deck.cards@.lemma_multiset_has_no_duplicates_conv();
            assert(deck.cards@.len() == 52) by {
                deck.cards@.lemma_multiset_has_no_duplicates();
                vstd::seq_lib::to_multiset_len(deck.cards@);
                vstd::seq_lib::to_multiset_len(canonical_deck());
            }
        }
        deck
    }

    /// The deck of `cards`, in their order.
    pub fn from_cards(cards: Vec<Card>) -> (r: Deck)
        ensures
            r.cards@ == cards@,
    {
        Deck { cards }
    }

    /// Reads deck notation: pairs of a rank character and a suit character, such as `QH`.
    pub fn from_notation(v: &[u8]) -> (r: Result<Deck, NotationError>)
        ensures
            match notation_result(v@) {
                Ok(cards) => r is Ok && r->Ok_0.cards@ == cards,
                Err(e) => r == Err::<Deck, NotationError>(e),
            },
    {
        if v.len() % 2 != 0 {
            return Err(NotationError::OddLength);
        }
        let n = v.len() / 2;
        let mut cards: Vec<Card> = Vec::new();
        let mut i: usize = 0;
        while i < n
            invariant
                n == v@.len() / 2,
                2 * n == v@.len(),
                v@.len() == v.len(),
                v@.len() % 2 == 0,
                i <= n,
                pairs_result(v@, i as nat) == Ok::<Seq<Card>, NotationError>(cards@),
            decreases n - i,
        {
            let pair = (rank_from_byte(v[2 * i]), suit_from_byte(v[2 * i + 1]));
            match flatten(pair) {
                Ok((rank, suit)) => cards.push(Card { suit, rank }),
                Err(e) => {
                    assert(pairs_result(v@, (i + 1) as nat) == Err::<Seq<Card>, NotationError>(e));
                    proof {
                        lemma_pairs_error_stays(v@, (i + 1) as nat, n as nat);
                    }
                    return Err(e);
                },
            }
            i += 1;
        }
        Ok(Deck { cards })
    }
}

/// Once a pair fails, every longer prefix fails with the same error.
proof fn lemma_pairs_error_stays(v: Seq<u8>, i: nat, n: nat)
    requires
        i <= n,
        pairs_result(v, i) is Err,
    ensures
        pairs_result(v, n) == pairs_result(v, i),
    decreases n - i,
{
    if i < n {
        lemma_pairs_error_stays(v, i, (n - 1) as nat);
    }
}

} // verus!
