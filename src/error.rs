use vstd::prelude::*;

use crate::cards::{Card, Seat, Suit};

verus! {

/// Every way in which an operation on a deal, or the decoding of a value, can fail.
#[derive(Debug, PartialEq, Eq)]
pub enum GameError {
    /// The card is already in the hand of `held_by`.
    AlreadyHeld { card: Card, assign_to: Seat, held_by: Seat },
    /// The card was already played by `played_by`.
    AlreadyPlayed { card: Card, assign_to: Seat, played_by: Seat },
    /// The seat has shown out of the card's suit.
    Revoked { card: Card, give_to: Seat, revoked: Suit },
    /// The seat already holds thirteen cards.
    FourteenCards { seat: Seat, card: Card },
    /// The player holds a card of the suit led and must follow.
    ActionRevoked { card: Card, played_by: Seat },
    /// The card has already been played.
    ActionAlreadyPlayed { card: Card },
    /// The action does not belong to the phase the deal is in.
    InvalidState,
    /// An action of a batch failed at `position`.
    BatchError { position: usize, error: Box<GameError> },
    /// A byte that encodes no action.
    InvalidActionId(u8),
    DoubleOfNoBid,
    ReDoubleOfNoBid,
    AlreadyDoubled,
    DoubleOfOwnSide,
    ReDoubleOfOtherSide,
    InsufficientBid,
    InvalidSuitString(String),
    InvalidRankString(String),
    InvalidSeat,
    InvalidVulnerability,
    InvalidCall,
    NoSuchAction(usize),
}

} // verus!
