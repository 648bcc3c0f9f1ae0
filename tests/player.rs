use schnorrkel::Keypair;
use vrf_cards::card::{generate_deck, Card, Rank, Suit};
use vrf_cards::player::{DrawError, Player};
use schnorrkel::SecretKey;
use vrf_cards::vrf::{output_is_identity, sign_card, verify_signed_card};

fn fresh_keypair() -> Keypair {
    Keypair::generate_with(rand::rngs::OsRng)
}

#[test]
fn new_player_starts_empty() {
    let p = Player::new("Alice".to_string());
    assert_eq!(p.get_name(), "Alice");
    assert_eq!(p.get_score(), 0);
    assert_eq!(p.draw_count(), 0);
}

#[test]
fn set_score_replaces_score() {
    let mut p = Player::new("Bob".to_string());
    p.set_score(7);
    assert_eq!(p.get_score(), 7);
    p.set_score(p.get_score() + 1);
    assert_eq!(p.get_score(), 8);
    assert_eq!(p.get_name(), "Bob");
}

#[test]
fn drawn_card_verifies() {
    let deck = generate_deck();
    let mut p = Player::new("Alice".to_string());
    let card = p.draw_card(&deck).unwrap();
    assert!(deck.contains(&card));
    assert!(p.verify_card(&card));
}

#[test]
fn every_card_of_the_deck_round_trips() {
    let keypair = fresh_keypair();
    for card in generate_deck() {
        let (out, proof) = sign_card(&keypair, "Alice", &card);
        assert!(verify_signed_card(&keypair, "Alice", &card, &out, &proof));
    }
}

#[test]
fn draws_append_one_entry_each() {
    let deck = generate_deck();
    let mut p = Player::new("Alice".to_string());
    let mut drawn = Vec::new();
    for n in 1..=20 {
        drawn.push(p.draw_card(&deck).unwrap());
        assert_eq!(p.draw_count(), n);
    }
    for card in &drawn {
        assert!(p.verify_card(card));
    }
    assert_eq!(deck, generate_deck());
}

#[test]
fn empty_deck_is_refused() {
    let mut p = Player::new("Alice".to_string());
    let deck: Vec<Card> = Vec::new();
    assert_eq!(p.draw_card(&deck), Err(DrawError::EmptyDeck));
    assert_eq!(p.draw_count(), 0);
    assert_eq!(p.get_score(), 0);
}

#[test]
fn single_card_deck_always_gives_that_card() {
    let only = Card::new(Rank::Five, Suit::Hearts);
    let deck = vec![only];
    let mut p = Player::new("Carol".to_string());
    for _ in 0..3 {
        assert_eq!(p.draw_card(&deck), Ok(only));
    }
    assert_eq!(p.draw_count(), 3);
    assert!(p.verify_card(&only));
}

#[test]
fn unknown_card_does_not_verify() {
    let p = Player::new("Alice".to_string());
    assert!(!p.verify_card(&Card::new(Rank::Ace, Suit::Spades)));

    let mut q = Player::new("Bob".to_string());
    let deck = vec![Card::new(Rank::Two, Suit::Clubs)];
    q.draw_card(&deck).unwrap();
    assert!(!q.verify_card(&Card::new(Rank::Three, Suit::Clubs)));
    assert!(!q.verify_card(&Card::new(Rank::Two, Suit::Hearts)));
}

#[test]
fn card_drawn_by_other_player_does_not_verify() {
    let deck = vec![Card::new(Rank::King, Suit::Spades)];
    let mut alice = Player::new("Alice".to_string());
    let bob = Player::new("Bob".to_string());
    let card = alice.draw_card(&deck).unwrap();
    assert!(alice.verify_card(&card));
    assert!(!bob.verify_card(&card));
}

#[test]
fn verification_is_idempotent() {
    let deck = generate_deck();
    let mut p = Player::new("Alice".to_string());
    let card = p.draw_card(&deck).unwrap();
    let other = if card == deck[0] { deck[1] } else { deck[0] };
    for _ in 0..5 {
        assert!(p.verify_card(&card));
        assert!(!p.verify_card(&other));
    }
}

#[test]
fn proof_does_not_transfer_to_another_key() {
    let alice = fresh_keypair();
    let bob = fresh_keypair();
    let card = Card::new(Rank::King, Suit::Spades);
    let (out, proof) = sign_card(&alice, "Alice", &card);
    assert!(verify_signed_card(&alice, "Alice", &card, &out, &proof));
    assert!(!verify_signed_card(&bob, "Alice", &card, &out, &proof));
    assert!(!verify_signed_card(&bob, "Bob", &card, &out, &proof));
}

#[test]
fn proof_does_not_transfer_to_another_context() {
    let alice = fresh_keypair();
    let card = Card::new(Rank::Nine, Suit::Hearts);
    let (out, proof) = sign_card(&alice, "Alice", &card);
    assert!(!verify_signed_card(&alice, "Bob", &card, &out, &proof));
}

#[test]
fn proof_does_not_transfer_to_another_card() {
    let alice = fresh_keypair();
    let c1 = Card::new(Rank::Nine, Suit::Hearts);
    let c2 = Card::new(Rank::Nine, Suit::Spades);
    let (out, proof) = sign_card(&alice, "Alice", &c1);
    assert!(verify_signed_card(&alice, "Alice", &c1, &out, &proof));
    assert!(!verify_signed_card(&alice, "Alice", &c2, &out, &proof));
}

#[test]
fn same_key_context_and_card_give_same_output() {
    let alice = fresh_keypair();
    let card = Card::new(Rank::Ace, Suit::Diamonds);
    let (out1, proof1) = sign_card(&alice, "Alice", &card);
    let (out2, proof2) = sign_card(&alice, "Alice", &card);
    assert_eq!(out1.to_preout(), out2.to_preout());
    assert!(verify_signed_card(&alice, "Alice", &card, &out1, &proof2));
    assert!(verify_signed_card(&alice, "Alice", &card, &out2, &proof1));
}

#[test]
fn draw_at_index_takes_that_card() {
    let deck = generate_deck();
    let mut p = Player::new("Dave".to_string());
    assert_eq!(p.draw_card_at(&deck, 0), Ok(Card::new(Rank::Ace, Suit::Spades)));
    assert_eq!(p.draw_card_at(&deck, 51), Ok(Card::new(Rank::King, Suit::Clubs)));
    assert_eq!(p.draw_card_at(&deck, 20), Ok(Card::new(Rank::Eight, Suit::Hearts)));
    assert_eq!(p.draw_count(), 3);
    assert!(p.verify_card(&deck[0]));
    assert!(p.verify_card(&deck[51]));
    assert!(p.verify_card(&deck[20]));
    assert!(!p.verify_card(&deck[1]));
}

#[test]
fn mismatched_keypair_signature_is_refused() {
    let a = fresh_keypair();
    let b = fresh_keypair();
    let mixed = Keypair { secret: a.secret.clone(), public: b.public };
    let card = Card::new(Rank::Four, Suit::Clubs);
    let (out, proof) = sign_card(&mixed, "Eve", &card);
    assert!(!verify_signed_card(&mixed, "Eve", &card, &out, &proof));
}

#[test]
fn generated_key_output_is_not_identity() {
    let keypair = fresh_keypair();
    for card in generate_deck() {
        let (out, _) = sign_card(&keypair, "Alice", &card);
        assert!(!output_is_identity(&out));
    }
}

#[test]
fn zero_secret_gives_identity_output_that_never_verifies() {
    let zero = SecretKey::from_bytes(&[0u8; 64]).unwrap().to_keypair();
    let card = Card::new(Rank::Ace, Suit::Hearts);
    let (out, proof) = sign_card(&zero, "Zed", &card);
    assert!(output_is_identity(&out));
    assert!(!verify_signed_card(&zero, "Zed", &card, &out, &proof));
}
