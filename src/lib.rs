//! A rules engine for one deal of contract bridge: the deal, the auction, the play of the
//! tricks, and the replay of a deal from its action ids.

pub mod auction;
pub mod cards;
pub mod deal;
pub mod deck;
pub mod error;
pub mod laws;
mod random;
pub mod text;
