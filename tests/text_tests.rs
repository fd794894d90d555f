use bridge_game::auction::{Bid, Call, Level, Strain};
use bridge_game::cards::{Card, Rank, Seat, Suit, Vulnerability};
use bridge_game::deck::{flatten, Deck, NotationError};
use bridge_game::error::GameError;

#[test]
fn seats_from_text() {
    assert_eq!(Seat::new("S"), Ok(Seat::South));
    assert_eq!(Seat::new("West"), Ok(Seat::West));
    assert_eq!(Seat::new("N"), Ok(Seat::North));
    assert_eq!(Seat::new("East"), Ok(Seat::East));
    assert_eq!(Seat::new("south"), Err(GameError::InvalidSeat));
    assert_eq!(Seat::North.as_string(), "North");
}

#[test]
fn suits_from_text() {
    assert_eq!(Suit::new("C"), Ok(Suit::Club));
    assert_eq!(Suit::new("Clubs"), Ok(Suit::Club));
    assert_eq!(Suit::new("Diamond"), Ok(Suit::Diamond));
    assert_eq!(Suit::new("H"), Ok(Suit::Heart));
    assert_eq!(Suit::new("Spades"), Ok(Suit::Spade));
    assert_eq!(Suit::new("X"), Err(GameError::InvalidSuitString("X".to_string())));
    assert_eq!(Suit::Diamond.as_string(), "Diamonds");
}

#[test]
fn ranks_and_levels_from_text() {
    assert_eq!(Rank::new("2"), Ok(Rank::Two));
    assert_eq!(Rank::new("Ten"), Ok(Rank::Ten));
    assert_eq!(Rank::new("T"), Ok(Rank::Ten));
    assert_eq!(Rank::new("A"), Ok(Rank::Ace));
    assert_eq!(Rank::new("1"), Err(GameError::InvalidRankString("1".to_string())));
    assert_eq!(Level::new("7"), Ok(Level::L7));
    assert_eq!(Level::new("8"), Err(GameError::InvalidRankString("8".to_string())));
    assert_eq!(Level::L4.as_string(), "4");
}

#[test]
fn strains_bids_and_calls_from_text() {
    assert_eq!(Strain::new("NT"), Ok(Strain::NoTrump));
    assert_eq!(Strain::new("notrump"), Ok(Strain::NoTrump));
    assert_eq!(Strain::new("S"), Ok(Strain::Suit(Suit::Spade)));
    assert_eq!(Strain::new("Z"), Err(GameError::InvalidSuitString("Z".to_string())));
    assert_eq!(Strain::NoTrump.as_string(), "NoTrump");
    assert_eq!(Strain::Suit(Suit::Heart).as_string(), "Hearts");
    assert_eq!(
        Bid::new(Level::L2, "D"),
        Ok(Bid { level: Level::L2, strain: Strain::Suit(Suit::Diamond) })
    );
    assert_eq!(Call::new("pass"), Ok(Call::Pass));
    assert_eq!(Call::new("Double"), Ok(Call::Double));
    assert_eq!(Call::new("reDouble"), Ok(Call::ReDouble));
    assert_eq!(Call::new("bid"), Err(GameError::InvalidCall));
    assert_eq!(Call::ReDouble.id(), 37);
}

#[test]
fn vulnerability_from_text() {
    assert_eq!(Vulnerability::new(None), Ok(Vulnerability::Neither));
    assert_eq!(Vulnerability::new(Some("None")), Ok(Vulnerability::Neither));
    assert_eq!(Vulnerability::new(Some("NorthSouth")), Ok(Vulnerability::NorthSouth));
    assert_eq!(Vulnerability::new(Some("All")), Ok(Vulnerability::All));
    assert_eq!(Vulnerability::new(Some("Both")), Err(GameError::InvalidVulnerability));
}

#[test]
fn cards_from_text() {
    assert_eq!(Card::new("H", "Q"), Ok(Card { suit: Suit::Heart, rank: Rank::Queen }));
    assert_eq!(Card::new("Q", "H"), Err(GameError::InvalidSuitString("Q".to_string())));
    assert_eq!(Card::new("H", "H"), Err(GameError::InvalidRankString("H".to_string())));
}

#[test]
fn test_deck() {
    assert_eq!(
        Deck::from_notation(b"QH"),
        Ok(Deck::from_cards(vec![Card { suit: Suit::Heart, rank: Rank::Queen }]))
    );
    assert_eq!(
        Deck::from_notation(b"QHKD"),
        Ok(Deck::from_cards(vec![
            Card { suit: Suit::Heart, rank: Rank::Queen },
            Card { suit: Suit::Diamond, rank: Rank::King }
        ]))
    );
    assert_eq!(Deck::from_notation(b""), Ok(Deck::from_cards(vec![])));
}

#[test]
fn test_failures() {
    assert_eq!(Deck::from_notation(b"Q"), Err(NotationError::OddLength));
    assert_eq!(Deck::from_notation(b"XH"), Err(NotationError::InvalidRankChar));
    assert_eq!(Deck::from_notation(b"QX"), Err(NotationError::InvalidSuitChar));
    assert_eq!(Deck::from_notation(b"XX"), Err(NotationError::InvalidRankChar));
    assert_eq!(Deck::from_notation(b"2C9SQX"), Err(NotationError::InvalidSuitChar));
}

#[test]
fn flatten_keeps_first_error() {
    assert_eq!(flatten::<u8, u8, &str>((Ok(1), Ok(2))), Ok((1, 2)));
    assert_eq!(flatten::<u8, u8, &str>((Err("a"), Err("b"))), Err("a"));
    assert_eq!(flatten::<u8, u8, &str>((Ok(1), Err("b"))), Err("b"));
}

#[test]
fn strains_are_ordered() {
    assert!(Strain::NoTrump > Strain::Suit(Suit::Spade));
    assert!(Strain::Suit(Suit::Club) < Strain::Suit(Suit::Diamond));
    assert!(Strain::Suit(Suit::Heart) <= Strain::Suit(Suit::Heart));
    assert!(!(Strain::Suit(Suit::Spade) < Strain::Suit(Suit::Heart)));
}

#[test]
fn card_and_rank_names() {
    assert_eq!(Rank::Queen.as_string(), "Queen");
    assert_eq!(Card { suit: Suit::Heart, rank: Rank::Two }.as_string(), "TwoHearts");
    assert_eq!(Card::from_id(51).as_string(), "AceSpades");
}

#[test]
fn random_draws_cover_every_value() {
    let mut seats = [false; 4];
    let mut vulnerabilities = Vec::new();
    for _ in 0..400 {
        seats[Seat::rand() as usize] = true;
        let v = Vulnerability::rand();
        if !vulnerabilities.contains(&v) {
            vulnerabilities.push(v);
        }
    }
    assert!(seats.iter().all(|&s| s));
    assert_eq!(vulnerabilities.len(), 4);
}
