use vrf_cards::card::{compare_cards, generate_deck, Card, Rank, Suit, Winner};
use vrf_cards::game::play_round;
use vrf_cards::player::{DrawError, Player};

#[test]
fn round_awards_the_higher_card() {
    let mut alice = Player::new("Alice".to_string());
    let mut bob = Player::new("Bob".to_string());
    let deck = vec![Card::new(Rank::King, Suit::Spades)];
    assert_eq!(play_round(&mut alice, &mut bob, &deck), Ok(Winner::Tie));
    assert_eq!((alice.get_score(), bob.get_score()), (0, 0));
    assert_eq!((alice.draw_count(), bob.draw_count()), (1, 1));
}

#[test]
fn rounds_score_only_the_winner() {
    let mut alice = Player::new("Alice".to_string());
    let mut bob = Player::new("Bob".to_string());
    let deck = generate_deck();
    let mut ties: u32 = 0;
    for n in 1..=50u32 {
        let before = (alice.get_score(), bob.get_score());
        let w = play_round(&mut alice, &mut bob, &deck).unwrap();
        let after = (alice.get_score(), bob.get_score());
        match w {
            Winner::First => assert_eq!(after, (before.0 + 1, before.1)),
            Winner::Second => assert_eq!(after, (before.0, before.1 + 1)),
            Winner::Tie => {
                ties += 1;
                assert_eq!(after, before);
            }
        }
        assert_eq!(alice.get_score() + bob.get_score() + ties, n);
        assert_eq!(alice.draw_count(), n as usize);
    }
}

#[test]
fn round_on_empty_deck_is_refused() {
    let mut alice = Player::new("Alice".to_string());
    let mut bob = Player::new("Bob".to_string());
    let deck: Vec<Card> = Vec::new();
    assert_eq!(play_round(&mut alice, &mut bob, &deck), Err(DrawError::EmptyDeck));
    assert_eq!((alice.draw_count(), bob.draw_count()), (0, 0));
}

#[test]
fn compare_is_by_value_only() {
    let ten = Card::new(Rank::Ten, Suit::Clubs);
    let jack = Card::new(Rank::Jack, Suit::Clubs);
    assert_eq!(compare_cards(&jack, &ten), Winner::First);
    assert_eq!(compare_cards(&ten, &jack), Winner::Second);
    assert_eq!(compare_cards(&ten, &Card::new(Rank::Ten, Suit::Spades)), Winner::Tie);
}
