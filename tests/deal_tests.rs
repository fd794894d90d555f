use bridge_game::auction::{Bid, Call, Level, Strain};
use bridge_game::cards::{Card, Rank, Seat, Suit, Vulnerability};
use bridge_game::deal::{Deal, CARDS_IN_DECK};
use bridge_game::deck::Deck;
use bridge_game::error::GameError;

fn card(suit: Suit, rank: Rank) -> Card {
    Card { suit, rank }
}

/// A deal in the play, on a contract of 1 in `strain` by South, West to lead.
fn playing(strain_id: u8) -> Deal {
    let mut deal = Deal::new(Seat::South, Vulnerability::Neither);
    deal.execute_actions_ids(&[strain_id, 35, 35, 35]).unwrap();
    deal
}

#[test]
fn test_give_card() {
    let mut deal = Deal::random_deal();
    assert!(deal
        .give_card(
            Seat::rand(),
            Card {
                suit: Suit::Heart,
                rank: Rank::Two
            }
        )
        .is_err())
}

#[test]
fn card_shuffle() {
    let mut rng = rand::thread_rng();
    let sut = Deck::shuffled(&mut rng);

    assert_eq!(sut.cards.len(), CARDS_IN_DECK);
    let unshuffled = Deck::default();
    for card in sut.cards {
        assert!(unshuffled.cards.contains(&card));
    }
}

#[test]
fn test_next() {
    let s = Seat::South;
    assert_eq!(s.next_seat(), Seat::West);
}

#[test]
fn quad_pass() -> Result<(), GameError> {
    let mut deal = Deal::random_deal();
    deal.execute_call_action(Call::Pass)?;
    deal.execute_actions_ids(&[35, 35, 35])?;
    assert_eq!(
        deal.execute_call_action(Call::Pass).err(),
        Some(GameError::InvalidState)
    );
    Ok(())
}

#[test]
fn test_bid_to_u8() {
    let cases = [
        (Bid { level: Level::L1, strain: Strain::Suit(Suit::Club) }, 0u8),
        (Bid { level: Level::L1, strain: Strain::Suit(Suit::Heart) }, 2),
        (Bid { level: Level::L2, strain: Strain::Suit(Suit::Heart) }, 7),
    ];
    for (bid, expected) in cases {
        assert_eq!(expected, bid.id());
        assert_eq!(bid, Bid::from_id(expected));
    }
}

#[test]
fn partner() {
    assert_eq!(Seat::West.partner(), Seat::East);
    assert_eq!(Seat::East.partner(), Seat::West);
    assert_eq!(Seat::North.partner(), Seat::South);
    assert_eq!(Seat::South.partner(), Seat::North);
}

#[test]
fn bid_from_u8() {
    assert_eq!(Bid { level: Level::L1, strain: Strain::Suit(Suit::Club) }, Bid::from_id(0));
    assert_eq!(Bid { level: Level::L1, strain: Strain::Suit(Suit::Diamond) }, Bid::from_id(1));
    assert_eq!(Bid { level: Level::L1, strain: Strain::NoTrump }, Bid::from_id(4));
    assert_eq!(Bid { level: Level::L7, strain: Strain::NoTrump }, Bid::from_id(34));
}

#[test]
fn card_from_u8() {
    assert_eq!(card(Suit::Club, Rank::Two), Card::from_id(0));
    assert_eq!(card(Suit::Club, Rank::Seven), Card::from_id(5));
    assert_eq!(card(Suit::Spade, Rank::Ace), Card::from_id(51));
}

#[test]
fn seat_cycle_and_partner() {
    for seat in [Seat::South, Seat::West, Seat::North, Seat::East] {
        assert_eq!(seat.next_seat().next_seat().next_seat().next_seat(), seat);
        assert_eq!(seat.partner().partner(), seat);
        assert_eq!(seat.partner(), seat.next_seat().next_seat());
        assert_ne!(seat.next_seat(), seat);
    }
}

#[test]
fn bid_encoding_round_trip() {
    assert_eq!(Bid { level: Level::L1, strain: Strain::Suit(Suit::Club) }.id(), 0);
    assert_eq!(Bid { level: Level::L1, strain: Strain::NoTrump }.id(), 4);
    assert_eq!(Bid { level: Level::L7, strain: Strain::NoTrump }.id(), 34);
    for id in 0u8..35 {
        assert_eq!(Bid::from_id(id).id(), id);
    }
}

#[test]
fn bids_rank_by_level_then_strain() {
    let one_nt = Bid { level: Level::L1, strain: Strain::NoTrump };
    let two_clubs = Bid { level: Level::L2, strain: Strain::Suit(Suit::Club) };
    assert!(two_clubs.is_above(&one_nt));
    assert!(!one_nt.is_above(&two_clubs));
    assert!(!one_nt.is_above(&one_nt));
}

#[test]
fn card_ids() {
    assert_eq!(card(Suit::Heart, Rank::Queen).id(), 36);
    for id in 0u8..52 {
        assert_eq!(Card::from_id(id).id(), id as usize);
    }
}

#[test]
fn fourteenth_card_refused() {
    let mut deal = Deal::new(Seat::North, Vulnerability::All);
    for id in 0u8..13 {
        deal.give_card(Seat::East, Card::from_id(id)).unwrap();
    }
    for id in 13u8..52 {
        let c = Card::from_id(id);
        assert_eq!(
            deal.give_card(Seat::East, c),
            Err(GameError::FourteenCards { seat: Seat::East, card: c })
        );
    }
    assert!(deal.give_card(Seat::West, Card::from_id(13)).is_ok());
}

#[test]
fn card_already_held() {
    let mut deal = Deal::new(Seat::South, Vulnerability::Neither);
    let c = card(Suit::Spade, Rank::King);
    deal.give_card(Seat::North, c).unwrap();
    assert_eq!(
        deal.give_card(Seat::South, c),
        Err(GameError::AlreadyHeld { card: c, assign_to: Seat::South, held_by: Seat::North })
    );
}

#[test]
fn card_already_played() {
    let mut deal = playing(0);
    let c = card(Suit::Diamond, Rank::Four);
    deal.execute_play_action(c).unwrap();
    assert_eq!(
        deal.give_card(Seat::East, c),
        Err(GameError::AlreadyPlayed { card: c, assign_to: Seat::East, played_by: Seat::West })
    );
    assert_eq!(deal.execute_play_action(c), Err(GameError::ActionAlreadyPlayed { card: c }));
}

#[test]
fn four_passes_end_the_deal() {
    let mut deal = Deal::new(Seat::East, Vulnerability::EastWest);
    for _ in 0..4 {
        deal.execute_call_action(Call::Pass).unwrap();
    }
    assert_eq!(deal.next_to_act(), None);
    assert_eq!(deal.contract_strain(), None);
    assert_eq!(deal.num_actions(), 4);
}

#[test]
fn three_passes_after_a_bid_start_the_play() {
    let mut deal = Deal::new(Seat::West, Vulnerability::Neither);
    deal.execute_bid_action(Bid { level: Level::L3, strain: Strain::Suit(Suit::Heart) }).unwrap();
    for _ in 0..3 {
        deal.execute_call_action(Call::Pass).unwrap();
    }
    assert_eq!(deal.contract_strain(), Some("Hearts".to_string()));
    assert_eq!(deal.contract_level(), Some("3".to_string()));
    assert_eq!(deal.contract_seat(), Some("West".to_string()));
    assert_eq!(deal.next_to_act(), Some(Seat::North));
    assert_eq!(deal.pass_position(), None);
}

#[test]
fn one_club_by_south() {
    let mut deal = Deal::new(Seat::South, Vulnerability::Neither);
    deal.execute_bid_action(Bid::from_id(0)).unwrap();
    assert_eq!(deal.pass_position(), Some(0));
    deal.execute_call_action(Call::Pass).unwrap();
    deal.execute_call_action(Call::Pass).unwrap();
    assert_eq!(deal.pass_position(), Some(2));
    deal.execute_call_action(Call::Pass).unwrap();
    assert_eq!(deal.contract_strain(), Some("Clubs".to_string()));
    assert_eq!(deal.contract_seat(), Some("South".to_string()));
    assert_eq!(deal.next_to_act(), Some(Seat::West));
    assert_eq!(deal.action(0), Ok(0));
    assert_eq!(deal.action(3), Ok(35));
    assert_eq!(deal.action(4), Err(GameError::NoSuchAction(4)));
}

#[test]
fn partner_who_named_the_strain_declares() {
    let mut deal = Deal::new(Seat::South, Vulnerability::Neither);
    // South 1H, West pass, North 2H, then three passes: South named hearts first.
    deal.execute_actions_ids(&[2, 35, 7, 35, 35, 35]).unwrap();
    assert_eq!(deal.contract_seat(), Some("South".to_string()));
    assert_eq!(deal.next_to_act(), Some(Seat::West));
}

#[test]
fn insufficient_bid() {
    let mut deal = Deal::new(Seat::South, Vulnerability::Neither);
    deal.execute_bid_action(Bid::from_id(7)).unwrap();
    assert_eq!(deal.execute_bid_action(Bid::from_id(7)), Err(GameError::InsufficientBid));
    assert_eq!(deal.execute_bid_action(Bid::from_id(3)), Err(GameError::InsufficientBid));
    assert!(deal.execute_bid_action(Bid::from_id(8)).is_ok());
}

#[test]
fn doubles_and_redoubles() {
    let mut deal = Deal::new(Seat::South, Vulnerability::Neither);
    assert_eq!(deal.execute_call_action(Call::Double), Err(GameError::DoubleOfNoBid));
    assert_eq!(deal.execute_call_action(Call::ReDouble), Err(GameError::ReDoubleOfNoBid));
    deal.execute_bid_action(Bid::from_id(0)).unwrap(); // South
    deal.execute_call_action(Call::Pass).unwrap(); // West
    assert_eq!(deal.execute_call_action(Call::Double), Err(GameError::DoubleOfOwnSide));
    assert_eq!(deal.execute_call_action(Call::ReDouble), Err(GameError::AlreadyDoubled));
    deal.execute_call_action(Call::Pass).unwrap(); // North
    deal.execute_call_action(Call::Double).unwrap(); // East
    assert_eq!(deal.pass_position(), Some(0));
    assert_eq!(deal.execute_call_action(Call::Double), Err(GameError::AlreadyDoubled));
    deal.execute_call_action(Call::Pass).unwrap(); // South
    assert_eq!(deal.execute_call_action(Call::ReDouble), Err(GameError::ReDoubleOfOtherSide));
    deal.execute_call_action(Call::Pass).unwrap(); // West
    deal.execute_call_action(Call::ReDouble).unwrap(); // North
    assert_eq!(deal.action(deal.num_actions() - 1), Ok(37));
}

#[test]
fn shown_out_seat_cannot_receive_the_suit() {
    let mut deal = playing(0);
    deal.execute_play_action(card(Suit::Heart, Rank::Five)).unwrap(); // West leads
    // North holds no heart, so it may discard.
    deal.execute_play_action(card(Suit::Spade, Rank::Two)).unwrap();
    let heart = card(Suit::Heart, Rank::Nine);
    assert_eq!(
        deal.give_card(Seat::North, heart),
        Err(GameError::Revoked { card: heart, give_to: Seat::North, revoked: Suit::Heart })
    );
    assert!(deal.give_card(Seat::South, heart).is_ok());
}

#[test]
fn must_follow_suit() {
    let mut deal = playing(4);
    deal.give_card(Seat::North, card(Suit::Club, Rank::Three)).unwrap();
    deal.execute_play_action(card(Suit::Club, Rank::Ten)).unwrap(); // West leads
    let off = card(Suit::Diamond, Rank::Ace);
    assert_eq!(
        deal.execute_play_action(off),
        Err(GameError::ActionRevoked { card: off, played_by: Seat::North })
    );
    assert_eq!(deal.next_to_act(), Some(Seat::North));
    assert!(deal.execute_play_action(card(Suit::Club, Rank::Three)).is_ok());
}

#[test]
fn trump_beats_a_higher_card() {
    let mut deal = playing(0); // clubs are trump
    deal.execute_play_action(card(Suit::Heart, Rank::Ace)).unwrap(); // West
    deal.execute_play_action(card(Suit::Club, Rank::Two)).unwrap(); // North ruffs
    deal.execute_play_action(card(Suit::Heart, Rank::King)).unwrap(); // East
    deal.execute_play_action(card(Suit::Diamond, Rank::Ace)).unwrap(); // South discards
    assert_eq!(deal.tricks_won(), [0, 0, 1, 0]);
    assert_eq!(deal.next_to_act(), Some(Seat::North));
}

#[test]
fn discard_never_wins() {
    let mut deal = playing(4); // no trump
    deal.execute_play_action(card(Suit::Heart, Rank::Two)).unwrap(); // West
    deal.execute_play_action(card(Suit::Spade, Rank::Ace)).unwrap(); // North discards
    deal.execute_play_action(card(Suit::Club, Rank::Ace)).unwrap(); // East discards
    deal.execute_play_action(card(Suit::Heart, Rank::Three)).unwrap(); // South
    assert_eq!(deal.tricks_won(), [1, 0, 0, 0]);
    assert_eq!(deal.next_to_act(), Some(Seat::South));
}

#[test]
fn thirteen_tricks_end_the_deal() {
    let mut deal = playing(4);
    for id in 0u8..52 {
        deal.execute_play_action(Card::from_id(id)).unwrap();
    }
    assert_eq!(deal.next_to_act(), None);
    assert_eq!(deal.tricks_won().iter().map(|&t| t as u32).sum::<u32>(), 13);
    assert_eq!(deal.execute_bid_action(Bid::from_id(34)), Err(GameError::InvalidState));
    assert_eq!(deal.execute_call_action(Call::Pass), Err(GameError::InvalidState));
    assert_eq!(
        deal.execute_play_action(Card::from_id(0)),
        Err(GameError::InvalidState)
    );
    assert_eq!(deal.num_actions(), 56);
}

#[test]
fn play_before_auction_ends_is_refused() {
    let mut deal = Deal::new(Seat::South, Vulnerability::Neither);
    assert_eq!(deal.execute_play_action(Card::from_id(3)), Err(GameError::InvalidState));
    let mut deal = playing(0);
    assert_eq!(deal.execute_call_action(Call::Pass), Err(GameError::InvalidState));
}

#[test]
fn batch_reaches_play() {
    let mut deal = Deal::new(Seat::South, Vulnerability::Neither);
    assert_eq!(deal.execute_actions_ids(&[0, 35, 35, 35]), Ok(()));
    assert_eq!(deal.contract_strain(), Some("Clubs".to_string()));
    assert_eq!(deal.num_actions(), 4);
}

#[test]
fn batch_stops_at_bad_id() {
    let mut deal = Deal::new(Seat::South, Vulnerability::Neither);
    let r = deal.execute_actions_ids(&[0, 35, 200, 35]);
    assert_eq!(
        r,
        Err(GameError::BatchError { position: 2, error: Box::new(GameError::InvalidActionId(200)) })
    );
    assert_eq!(deal.num_actions(), 2);
    assert_eq!(deal.pass_position(), Some(1));
}

#[test]
fn batch_reports_inner_error() {
    let mut deal = Deal::new(Seat::South, Vulnerability::Neither);
    let r = deal.execute_actions_ids(&[5, 3]);
    assert_eq!(
        r,
        Err(GameError::BatchError { position: 1, error: Box::new(GameError::InsufficientBid) })
    );
    let mut over = Deal::new(Seat::South, Vulnerability::Neither);
    let r = over.execute_actions_ids(&[35, 35, 35, 35, 35]);
    assert_eq!(
        r,
        Err(GameError::BatchError { position: 4, error: Box::new(GameError::InvalidState) })
    );
}

#[test]
fn copies_are_independent() {
    let mut deal = playing(0);
    let copy = deal.deepcopy();
    assert!(copy.equals(&deal));
    deal.execute_play_action(Card::from_id(9)).unwrap();
    assert!(!copy.equals(&deal));
    assert_eq!(copy.num_actions(), 4);
    assert_eq!(deal.num_actions(), 5);
}

#[test]
fn random_deal_deals_every_card() {
    let mut deal = Deal::random_deal();
    assert_eq!(deal.num_actions(), 0);
    assert_eq!(deal.pass_position(), Some(0));
    for seat in [Seat::South, Seat::West, Seat::North, Seat::East] {
        for id in 0u8..52 {
            assert!(deal.give_card(seat, Card::from_id(id)).is_err());
        }
    }
}

#[test]
fn from_deck_deals_in_order() {
    let deck = Deck::default();
    let mut deal = Deal::from_deck(Seat::South, Vulnerability::Neither, &deck);
    // The fourteenth card of the unshuffled deck went to West.
    let c = deck.cards[13];
    assert_eq!(
        deal.give_card(Seat::East, c),
        Err(GameError::FourteenCards { seat: Seat::East, card: c })
    );
    let mut empty = Deal::new(Seat::South, Vulnerability::Neither);
    empty.give_card(Seat::West, c).unwrap();
    assert!(!empty.equals(&deal));
}

#[test]
fn shuffled_deck_is_a_permutation() {
    let mut rng = rand::thread_rng();
    let deck = Deck::shuffled(&mut rng);
    let mut seen = [false; 52];
    for c in &deck.cards {
        assert!(!seen[c.id()]);
        seen[c.id()] = true;
    }
    assert!(seen.iter().all(|&s| s));
    let other = Deck::shuffled(&mut rng);
    assert!(deck.cards != Deck::default().cards || other.cards != Deck::default().cards);
}

#[test]
fn unshuffled_deck_order() {
    let deck = Deck::default();
    assert_eq!(deck.cards.len(), 52);
    assert_eq!(deck.cards[0], card(Suit::Club, Rank::Two));
    assert_eq!(deck.cards[1], card(Suit::Diamond, Rank::Two));
    assert_eq!(deck.cards[51], card(Suit::Spade, Rank::Ace));
}
