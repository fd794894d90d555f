use vstd::prelude::*;
use vstd::string::*;

use crate::error::GameError;
use crate::random::{new_rng, random_below};
use crate::text::{is_spelled, spelled, text_eq};

verus! {

/// The four positions at the table, in the order in which they act.
#[derive(Clone, Copy, Debug, PartialEq, Eq, Structural, PartialOrd, Ord, Hash)]
pub enum Seat {
    South,
    West,
    North,
    East,
}

/// The four suits, from lowest to highest.
#[derive(Clone, Copy, Debug, PartialEq, Eq, Structural, PartialOrd, Ord, Hash)]
pub enum Suit {
    Club,
    Diamond,
    Heart,
    Spade,
}

/// The thirteen ranks, from lowest to highest.
#[derive(Clone, Copy, Debug, PartialEq, Eq, Structural, PartialOrd, Ord, Hash)]
pub enum Rank {
    Two,
    Three,
    Four,
    Five,
    Six,
    Seven,
    Eight,
    Nine,
    Ten,
    Jack,
    Queen,
    King,
    Ace,
}

/// A playing card.
#[derive(Clone, Copy, Debug, PartialEq, Eq, Structural, Hash)]
pub struct Card {
    pub suit: Suit,
    pub rank: Rank,
}

/// Which sides are vulnerable; carried by a deal, not interpreted by it.
#[derive(Clone, Copy, Debug, PartialEq, Eq, Structural, Hash)]
pub enum Vulnerability {
    Neither,
    NorthSouth,
    EastWest,
    All,
}

pub open spec fn seat_of_index(i: int) -> Seat {
    if i == 0 {
        Seat::South
    } else if i == 1 {
        Seat::West
    } else if i == 2 {
        Seat::North
    } else {
        Seat::East
    }
}

pub open spec fn seat_of_text(t: Seq<char>) -> Option<Seat> {
    if spelled(t, "S", "South") {
        Some(Seat::South)
    } else if spelled(t, "W", "West") {
        Some(Seat::West)
    } else if spelled(t, "N", "North") {
        Some(Seat::North)
    } else if spelled(t, "E", "East") {
        Some(Seat::East)
    } else {
        None
    }
}

impl Seat {
    /// Position of the seat in the cycle South, West, North, East.
    pub open spec fn spec_index(self) -> int {
        match self {
            Seat::South => 0,
            Seat::West => 1,
            Seat::North => 2,
            Seat::East => 3,
        }
    }

    pub open spec fn spec_next(self) -> Seat {
        seat_of_index((self.spec_index() + 1) % 4)
    }

    pub open spec fn spec_partner(self) -> Seat {
        seat_of_index((self.spec_index() + 2) % 4)
    }

    pub fn index(&self) -> (r: usize)
        ensures
            r == self.spec_index(),
            r < 4,
    {
        match self {
            Seat::South => 0,
            Seat::West => 1,
            Seat::North => 2,
            Seat::East => 3,
        }
    }

    /// Decodes a seat from its letter or its name.
    pub fn new(s: &str) -> (r: Result<Seat, GameError>)
        ensures
            r == (match seat_of_text(s@) {
                Some(seat) => Ok::<Seat, GameError>(seat),
                None => Err(GameError::InvalidSeat),
            }),
    {
        if is_spelled(s, "S", "South") {
            Ok(Seat::South)
        } else if is_spelled(s, "W", "West") {
            Ok(Seat::West)
        } else if is_spelled(s, "N", "North") {
            Ok(Seat::North)
        } else if is_spelled(s, "E", "East") {
            Ok(Seat::East)
        } else {
            Err(GameError::InvalidSeat)
        }
    }

    pub fn from_index(i: u8) -> (r: Seat)
        requires
            i < 4,
        ensures
            r == seat_of_index(i as int),
            r.spec_index() == i,
    {
        if i == 0 {
            Seat::South
        } else if i == 1 {
            Seat::West
        } else if i == 2 {
            Seat::North
        } else {
            Seat::East
        }
    }

    /// A seat drawn at random.
    pub fn rand() -> (r: Seat) {
        let mut rng = new_rng();
        Seat::from_index(random_below(&mut rng, 4))
    }

    /// The seat that acts after this one.
    pub fn next_seat(&self) -> (r: Seat)
        ensures
            r == self.spec_next(),
    {
        match self {
            Seat::South => Seat::West,
            Seat::West => Seat::North,
            Seat::North => Seat::East,
            Seat::East => Seat::South,
        }
    }

    /// The seat across the table.
    pub fn partner(&self) -> (r: Seat)
        ensures
            r == self.spec_partner(),
            r == self.spec_next().spec_next(),
    {
        self.next_seat().next_seat()
    }

    /// The seat's name.
    pub fn as_string(&self) -> (r: String)
        ensures
            r@ == seat_name(*self)@,
    {
        seat_name(*self).to_owned()
    }
}

pub open spec fn seat_name_spec(seat: Seat) -> &'static str {
    match seat {
        Seat::South => "South",
        Seat::West => "West",
        Seat::North => "North",
        Seat::East => "East",
    }
}

#[verifier::when_used_as_spec(seat_name_spec)]
pub fn seat_name(seat: Seat) -> (r: &'static str)
    ensures
        r == seat_name_spec(seat),
{
    match seat {
        Seat::South => "South",
        Seat::West => "West",
        Seat::North => "North",
        Seat::East => "East",
    }
}

pub open spec fn suit_of_index(i: int) -> Suit {
    if i == 0 {
        Suit::Club
    } else if i == 1 {
        Suit::Diamond
    } else if i == 2 {
        Suit::Heart
    } else {
        Suit::Spade
    }
}

pub open spec fn suit_of_text(t: Seq<char>) -> Option<Suit> {
    if t == "Club"@ || spelled(t, "C", "Clubs") {
        Some(Suit::Club)
    } else if t == "Diamond"@ || spelled(t, "D", "Diamonds") {
        Some(Suit::Diamond)
    } else if t == "Heart"@ || spelled(t, "H", "Hearts") {
        Some(Suit::Heart)
    } else if t == "Spade"@ || spelled(t, "S", "Spades") {
        Some(Suit::Spade)
    } else {
        None
    }
}

pub open spec fn rank_of_index(i: int) -> Rank {
    if i == 0 {
        Rank::Two
    } else if i == 1 {
        Rank::Three
    } else if i == 2 {
        Rank::Four
    } else if i == 3 {
        Rank::Five
    } else if i == 4 {
        Rank::Six
    } else if i == 5 {
        Rank::Seven
    } else if i == 6 {
        Rank::Eight
    } else if i == 7 {
        Rank::Nine
    } else if i == 8 {
        Rank::Ten
    } else if i == 9 {
        Rank::Jack
    } else if i == 10 {
        Rank::Queen
    } else if i == 11 {
        Rank::King
    } else {
        Rank::Ace
    }
}

pub open spec fn rank_of_text(t: Seq<char>) -> Option<Rank> {
    if spelled(t, "2", "Two") {
        Some(Rank::Two)
    } else if spelled(t, "3", "Three") {
        Some(Rank::Three)
    } else if spelled(t, "4", "Four") {
        Some(Rank::Four)
    } else if spelled(t, "5", "Five") {
        Some(Rank::Five)
    } else if spelled(t, "6", "Six") {
        Some(Rank::Six)
    } else if spelled(t, "7", "Seven") {
        Some(Rank::Seven)
    } else if spelled(t, "8", "Eight") {
        Some(Rank::Eight)
    } else if spelled(t, "9", "Nine") {
        Some(Rank::Nine)
    } else if spelled(t, "T", "Ten") {
        Some(Rank::Ten)
    } else if spelled(t, "J", "Jack") {
        Some(Rank::Jack)
    } else if spelled(t, "Q", "Queen") {
        Some(Rank::Queen)
    } else if spelled(t, "K", "King") {
        Some(Rank::King)
    } else if spelled(t, "A", "Ace") {
        Some(Rank::Ace)
    } else {
        None
    }
}

pub open spec fn vulnerability_of_text(t: Seq<char>) -> Option<Vulnerability> {
    if t == "None"@ {
        Some(Vulnerability::Neither)
    } else if t == "NorthSouth"@ {
        Some(Vulnerability::NorthSouth)
    } else if t == "EastWest"@ {
        Some(Vulnerability::EastWest)
    } else if t == "All"@ {
        Some(Vulnerability::All)
    } else {
        None
    }
}

impl Suit {
    pub open spec fn spec_index(self) -> int {
        match self {
            Suit::Club => 0,
            Suit::Diamond => 1,
            Suit::Heart => 2,
            Suit::Spade => 3,
        }
    }

    pub fn index(&self) -> (r: usize)
        ensures
            r == self.spec_index(),
            r < 4,
    {
        match self {
            Suit::Club => 0,
            Suit::Diamond => 1,
            Suit::Heart => 2,
            Suit::Spade => 3,
        }
    }

    pub fn from_index(i: u8) -> (r: Suit)
        requires
            i < 4,
        ensures
            r == suit_of_index(i as int),
            r.spec_index() == i,
    {
        if i == 0 {
            Suit::Club
        } else if i == 1 {
            Suit::Diamond
        } else if i == 2 {
            Suit::Heart
        } else {
            Suit::Spade
        }
    }

    /// Decodes a suit from its letter, its name or its plural.
    pub fn new(s: &str) -> (r: Result<Suit, GameError>)
        ensures
            r is Ok <==> suit_of_text(s@) is Some,
            r is Ok ==> suit_of_text(s@) == Some(r->Ok_0),
            r is Err ==> r->Err_0 is InvalidSuitString && r->Err_0->InvalidSuitString_0@ == s@,
    {
        if text_eq(s, "Club") || is_spelled(s, "C", "Clubs") {
            Ok(Suit::Club)
        } else if text_eq(s, "Diamond") || is_spelled(s, "D", "Diamonds") {
            Ok(Suit::Diamond)
        } else if text_eq(s, "Heart") || is_spelled(s, "H", "Hearts") {
            Ok(Suit::Heart)
        } else if text_eq(s, "Spade") || is_spelled(s, "S", "Spades") {
            Ok(Suit::Spade)
        } else {
            Err(GameError::InvalidSuitString(s.to_owned()))
        }
    }

    /// The suit's name.
    pub fn as_string(&self) -> (r: String)
        ensures
            r@ == suit_name(*self)@,
    {
        suit_name(*self).to_owned()
    }
}

pub open spec fn suit_name_spec(suit: Suit) -> &'static str {
    match suit {
        Suit::Club => "Clubs",
        Suit::Diamond => "Diamonds",
        Suit::Heart => "Hearts",
        Suit::Spade => "Spades",
    }
}

#[verifier::when_used_as_spec(suit_name_spec)]
pub fn suit_name(suit: Suit) -> (r: &'static str)
    ensures
        r == suit_name_spec(suit),
{
    match suit {
        Suit::Club => "Clubs",
        Suit::Diamond => "Diamonds",
        Suit::Heart => "Hearts",
        Suit::Spade => "Spades",
    }
}

pub open spec fn rank_name_spec(rank: Rank) -> &'static str {
    match rank {
        Rank::Two => "Two",
        Rank::Three => "Three",
        Rank::Four => "Four",
        Rank::Five => "Five",
        Rank::Six => "Six",
        Rank::Seven => "Seven",
        Rank::Eight => "Eight",
        Rank::Nine => "Nine",
        Rank::Ten => "Ten",
        Rank::Jack => "Jack",
        Rank::Queen => "Queen",
        Rank::King => "King",
        Rank::Ace => "Ace",
    }
}

#[verifier::when_used_as_spec(rank_name_spec)]
pub fn rank_name(rank: Rank) -> (r: &'static str)
    ensures
        r == rank_name_spec(rank),
{
    match rank {
        Rank::Two => "Two",
        Rank::Three => "Three",
        Rank::Four => "Four",
        Rank::Five => "Five",
        Rank::Six => "Six",
        Rank::Seven => "Seven",
        Rank::Eight => "Eight",
        Rank::Nine => "Nine",
        Rank::Ten => "Ten",
        Rank::Jack => "Jack",
        Rank::Queen => "Queen",
        Rank::King => "King",
        Rank::Ace => "Ace",
    }
}

impl Rank {
    pub open spec fn spec_index(self) -> int {
        match self {
            Rank::Two => 0,
            Rank::Three => 1,
            Rank::Four => 2,
            Rank::Five => 3,
            Rank::Six => 4,
            Rank::Seven => 5,
            Rank::Eight => 6,
            Rank::Nine => 7,
            Rank::Ten => 8,
            Rank::Jack => 9,
            Rank::Queen => 10,
            Rank::King => 11,
            Rank::Ace => 12,
        }
    }

    pub fn index(&self) -> (r: usize)
        ensures
            r == self.spec_index(),
            r < 13,
    {
        match self {
            Rank::Two => 0,
            Rank::Three => 1,
            Rank::Four => 2,
            Rank::Five => 3,
            Rank::Six => 4,
            Rank::Seven => 5,
            Rank::Eight => 6,
            Rank::Nine => 7,
            Rank::Ten => 8,
            Rank::Jack => 9,
            Rank::Queen => 10,
            Rank::King => 11,
            Rank::Ace => 12,
        }
    }

    pub fn from_index(i: u8) -> (r: Rank)
        requires
            i < 13,
        ensures
            r == rank_of_index(i as int),
            r.spec_index() == i,
    {
        if i == 0 {
            Rank::Two
        } else if i == 1 {
            Rank::Three
        } else if i == 2 {
            Rank::Four
        } else if i == 3 {
            Rank::Five
        } else if i == 4 {
            Rank::Six
        } else if i == 5 {
            Rank::Seven
        } else if i == 6 {
            Rank::Eight
        } else if i == 7 {
            Rank::Nine
        } else if i == 8 {
            Rank::Ten
        } else if i == 9 {
            Rank::Jack
        } else if i == 10 {
            Rank::Queen
        } else if i == 11 {
            Rank::King
        } else {
            Rank::Ace
        }
    }

    /// The rank's name.
    pub fn as_string(&self) -> (r: String)
        ensures
            r@ == rank_name(*self)@,
    {
        rank_name(*self).to_owned()
    }

    /// Decodes a rank from its digit or letter, or from its name.
    pub fn new(s: &str) -> (r: Result<Rank, GameError>)
        ensures
            r is Ok <==> rank_of_text(s@) is Some,
            r is Ok ==> rank_of_text(s@) == Some(r->Ok_0),
            r is Err ==> r->Err_0 is InvalidRankString && r->Err_0->InvalidRankString_0@ == s@,
    {
        if is_spelled(s, "2", "Two") {
            Ok(Rank::Two)
        } else if is_spelled(s, "3", "Three") {
            Ok(Rank::Three)
        } else if is_spelled(s, "4", "Four") {
            Ok(Rank::Four)
        } else if is_spelled(s, "5", "Five") {
            Ok(Rank::Five)
        } else if is_spelled(s, "6", "Six") {
            Ok(Rank::Six)
        } else if is_spelled(s, "7", "Seven") {
            Ok(Rank::Seven)
        } else if is_spelled(s, "8", "Eight") {
            Ok(Rank::Eight)
        } else if is_spelled(s, "9", "Nine") {
            Ok(Rank::Nine)
        } else if is_spelled(s, "T", "Ten") {
            Ok(Rank::Ten)
        } else if is_spelled(s, "J", "Jack") {
            Ok(Rank::Jack)
        } else if is_spelled(s, "Q", "Queen") {
            Ok(Rank::Queen)
        } else if is_spelled(s, "K", "King") {
            Ok(Rank::King)
        } else if is_spelled(s, "A", "Ace") {
            Ok(Rank::Ace)
        } else {
            Err(GameError::InvalidRankString(s.to_owned()))
        }
    }
}

impl Card {
    /// The card's place in the deck: thirteen slots per suit, ranks in order.
    pub open spec fn spec_id(self) -> int {
        self.suit.spec_index() * 13 + self.rank.spec_index()
    }

    pub fn id(&self) -> (r: usize)
        ensures
            r == self.spec_id(),
            r < 52,
    {
        self.suit.index() * 13 + self.rank.index()
    }

    /// The card whose place in the deck is `id`.
    pub fn from_id(id: u8) -> (r: Card)
        requires
            id < 52,
        ensures
            r.spec_id() == id,
            r == card_of_id(id as int),
    {
        Card { suit: Suit::from_index(id / 13), rank: Rank::from_index(id % 13) }
    }

    /// The card's name: its rank's, then its suit's.
    pub fn as_string(&self) -> (r: String)
        ensures
            r@ == rank_name(self.rank)@ + suit_name(self.suit)@,
    {
        rank_name(self.rank).to_owned().concat(suit_name(self.suit))
    }

    /// Decodes a card from the texts of its suit and of its rank.
    pub fn new(suit: &str, rank: &str) -> (r: Result<Card, GameError>)
        ensures
            r is Ok <==> (suit_of_text(suit@) is Some && rank_of_text(rank@) is Some),
            r is Ok ==> r->Ok_0 == (Card {
                suit: suit_of_text(suit@)->Some_0,
                rank: rank_of_text(rank@)->Some_0,
            }),
            suit_of_text(suit@) is None ==> r->Err_0 is InvalidSuitString
                && r->Err_0->InvalidSuitString_0@ == suit@,
            suit_of_text(suit@) is Some && rank_of_text(rank@) is None ==> r->Err_0
                is InvalidRankString && r->Err_0->InvalidRankString_0@ == rank@,
    {
        let suit = match Suit::new(suit) {
            Ok(s) => s,
            Err(e) => return Err(e),
        };
        let rank = match Rank::new(rank) {
            Ok(k) => k,
            Err(e) => return Err(e),
        };
        Ok(Card { suit, rank })
    }
}

/// Distinct cards have distinct ids.
pub proof fn lemma_card_id_injective(a: Card, b: Card)
    ensures
        a.spec_id() == b.spec_id() ==> a == b,
{
}

pub open spec fn card_of_id(id: int) -> Card {
    Card { suit: suit_of_index(id / 13), rank: rank_of_index(id % 13) }
}

impl Vulnerability {
    pub fn from_index(i: u8) -> (r: Vulnerability)
        requires
            i < 4,
        ensures
            r == (if i == 0 {
                Vulnerability::Neither
            } else if i == 1 {
                Vulnerability::NorthSouth
            } else if i == 2 {
                Vulnerability::EastWest
            } else {
                Vulnerability::All
            }),
    {
        if i == 0 {
            Vulnerability::Neither
        } else if i == 1 {
            Vulnerability::NorthSouth
        } else if i == 2 {
            Vulnerability::EastWest
        } else {
            Vulnerability::All
        }
    }

    /// A vulnerability drawn at random.
    pub fn rand() -> (r: Vulnerability) {
        let mut rng = new_rng();
        Vulnerability::from_index(random_below(&mut rng, 4))
    }

    /// Decodes a vulnerability from its name; no name means that nobody is vulnerable.
    pub fn new(name: Option<&str>) -> (r: Result<Vulnerability, GameError>)
        ensures
            name is None ==> r == Ok::<Vulnerability, GameError>(Vulnerability::Neither),
            name is Some ==> r == (match vulnerability_of_text(name->Some_0@) {
                Some(v) => Ok::<Vulnerability, GameError>(v),
                None => Err(GameError::InvalidVulnerability),
            }),
    {
        match name {
            None => Ok(Vulnerability::Neither),
            Some(s) => {
                if text_eq(s, "None") {
                    Ok(Vulnerability::Neither)
                } else if text_eq(s, "NorthSouth") {
                    Ok(Vulnerability::NorthSouth)
                } else if text_eq(s, "EastWest") {
                    Ok(Vulnerability::EastWest)
                } else if text_eq(s, "All") {
                    Ok(Vulnerability::All)
                } else {
                    Err(GameError::InvalidVulnerability)
                }
            },
        }
    }
}

} // verus!
