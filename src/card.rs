use vstd::prelude::*;
use vstd::string::StringExecFns;

verus! {

/// The rank of a playing card.
#[derive(Clone, Copy, Debug, PartialEq, Eq, Structural)]
pub enum Rank {
    Two,
    Three,
    Four,
    Five,
    Six,
    Seven,
    Eight,
    Nine,
    Ten,
    Jack,
    Queen,
    King,
    Ace,
}

/// The suit of a playing card.
#[derive(Clone, Copy, Debug, PartialEq, Eq, Structural)]
pub enum Suit {
    Spades,
    Hearts,
    Diamonds,
    Clubs,
}

/// A playing card; two cards are equal when rank and suit are.
#[derive(Clone, Copy, Debug, PartialEq, Eq, Structural)]
pub struct Card {
    pub rank: Rank,
    pub suit: Suit,
}

/// Which side of a comparison holds the higher card.
#[derive(Clone, Copy, Debug, PartialEq, Eq, Structural)]
pub enum Winner {
    First,
    Second,
    Tie,
}

/// Number of ranks in a suit.
pub const RANKS_PER_SUIT: usize = 13;

/// Number of cards in a standard deck.
pub const DECK_SIZE: usize = 52;

/// The game value of a rank: numerals count as themselves, Jack 11, Queen 12,
/// King 13, Ace 14.
pub open spec fn rank_value(r: Rank) -> nat {
    match r {
        Rank::Two => 2,
        Rank::Three => 3,
        Rank::Four => 4,
        Rank::Five => 5,
        Rank::Six => 6,
        Rank::Seven => 7,
        Rank::Eight => 8,
        Rank::Nine => 9,
        Rank::Ten => 10,
        Rank::Jack => 11,
        Rank::Queen => 12,
        Rank::King => 13,
        Rank::Ace => 14,
    }
}

/// How a rank is written in a card's text.
pub open spec fn rank_text(r: Rank) -> Seq<char> {
    match r {
        Rank::Two => "2"@,
        Rank::Three => "3"@,
        Rank::Four => "4"@,
        Rank::Five => "5"@,
        Rank::Six => "6"@,
        Rank::Seven => "7"@,
        Rank::Eight => "8"@,
        Rank::Nine => "9"@,
        Rank::Ten => "10"@,
        Rank::Jack => "Jack"@,
        Rank::Queen => "Queen"@,
        Rank::King => "King"@,
        Rank::Ace => "Ace"@,
    }
}

/// How a suit is written in a card's text.
pub open spec fn suit_text(s: Suit) -> Seq<char> {
    match s {
        Suit::Spades => "Spades"@,
        Suit::Hearts => "Hearts"@,
        Suit::Diamonds => "Diamonds"@,
        Suit::Clubs => "Clubs"@,
    }
}

/// The canonical text of a card, "<rank> of <suit>".
pub open spec fn card_text(c: Card) -> Seq<char> {
    rank_text(c.rank) + " of "@ + suit_text(c.suit)
}

/// The rank at position `i` of a suit in deck order: Ace, 2, ..., 10, Jack,
/// Queen, King.
pub open spec fn rank_at(i: int) -> Rank {
    if i == 0 {
        Rank::Ace
    } else if i == 1 {
        Rank::Two
    } else if i == 2 {
        Rank::Three
    } else if i == 3 {
        Rank::Four
    } else if i == 4 {
        Rank::Five
    } else if i == 5 {
        Rank::Six
    } else if i == 6 {
        Rank::Seven
    } else if i == 7 {
        Rank::Eight
    } else if i == 8 {
        Rank::Nine
    } else if i == 9 {
        Rank::Ten
    } else if i == 10 {
        Rank::Jack
    } else if i == 11 {
        Rank::Queen
    } else {
        Rank::King
    }
}

/// The suit at position `i` in deck order: Spades, Hearts, Diamonds, Clubs.
pub open spec fn suit_at(i: int) -> Suit {
    if i == 0 {
        Suit::Spades
    } else if i == 1 {
        Suit::Hearts
    } else if i == 2 {
        Suit::Diamonds
    } else {
        Suit::Clubs
    }
}

/// The standard deck: suit by suit, each suit in rank order.
pub open spec fn standard_deck() -> Seq<Card> {
    Seq::new(
        DECK_SIZE as nat,
        |i: int| Card { rank: rank_at(i % RANKS_PER_SUIT as int), suit: suit_at(i / RANKS_PER_SUIT as int) },
    )
}

/// The winner of a comparison of two cards by value.
pub open spec fn winner_of(a: Card, b: Card) -> Winner {
    if rank_value(a.rank) > rank_value(b.rank) {
        Winner::First
    } else if rank_value(b.rank) > rank_value(a.rank) {
        Winner::Second
    } else {
        Winner::Tie
    }
}

/// The position of a rank within a suit in deck order.
pub open spec fn rank_index(r: Rank) -> int {
    match r {
        Rank::Ace => 0,
        Rank::Two => 1,
        Rank::Three => 2,
        Rank::Four => 3,
        Rank::Five => 4,
        Rank::Six => 5,
        Rank::Seven => 6,
        Rank::Eight => 7,
        Rank::Nine => 8,
        Rank::Ten => 9,
        Rank::Jack => 10,
        Rank::Queen => 11,
        Rank::King => 12,
    }
}

/// The position of a suit in deck order.
pub open spec fn suit_index(s: Suit) -> int {
    match s {
        Suit::Spades => 0,
        Suit::Hearts => 1,
        Suit::Diamonds => 2,
        Suit::Clubs => 3,
    }
}

/// The standard deck holds every card exactly once: at the position given by
/// its suit and rank, and nowhere else.
pub proof fn lemma_standard_deck_holds_each_card_once(c: Card)
    ensures
        standard_deck()[suit_index(c.suit) * 13 + rank_index(c.rank)] == c,
        0 <= suit_index(c.suit) * 13 + rank_index(c.rank) < DECK_SIZE,
        forall|i: int| 0 <= i < DECK_SIZE && #[trigger] standard_deck()[i] == c ==> i == suit_index(c.suit) * 13 + rank_index(c.rank),
{
    let k = suit_index(c.suit) * 13 + rank_index(c.rank);
    assert(k / 13 == suit_index(c.suit) && k % 13 == rank_index(c.rank)) by (nonlinear_arith)
        requires
            k == suit_index(c.suit) * 13 + rank_index(c.rank),
            0 <= rank_index(c.rank) < 13,
            0 <= suit_index(c.suit) < 4,
    ;
    assert forall|i: int| 0 <= i < DECK_SIZE && #[trigger] standard_deck()[i] == c implies i == k by {
        let q = i / 13;
        let m = i % 13;
        assert(i == q * 13 + m && 0 <= m < 13 && 0 <= q < 4) by (nonlinear_arith)
            requires
                0 <= i < 52,
                q == i / 13,
                m == i % 13,
        ;
        assert(rank_index(rank_at(m)) == m);
        assert(suit_index(suit_at(q)) == q);
    }
}

fn rank_name(r: Rank) -> (s: &'static str)
    ensures
        s@ == rank_text(r),
{
    match r {
        Rank::Two => "2",
        Rank::Three => "3",
        Rank::Four => "4",
        Rank::Five => "5",
        Rank::Six => "6",
        Rank::Seven => "7",
        Rank::Eight => "8",
        Rank::Nine => "9",
        Rank::Ten => "10",
        Rank::Jack => "Jack",
        Rank::Queen => "Queen",
        Rank::King => "King",
        Rank::Ace => "Ace",
    }
}

fn suit_name(s: Suit) -> (t: &'static str)
    ensures
        t@ == suit_text(s),
{
    match s {
        Suit::Spades => "Spades",
        Suit::Hearts => "Hearts",
        Suit::Diamonds => "Diamonds",
        Suit::Clubs => "Clubs",
    }
}

fn rank_in_deck_order(i: usize) -> (r: Rank)
    requires
        i < RANKS_PER_SUIT,
    ensures
        r == rank_at(i as int),
{
    match i {
        0 => Rank::Ace,
        1 => Rank::Two,
        2 => Rank::Three,
        3 => Rank::Four,
        4 => Rank::Five,
        5 => Rank::Six,
        6 => Rank::Seven,
        7 => Rank::Eight,
        8 => Rank::Nine,
        9 => Rank::Ten,
        10 => Rank::Jack,
        11 => Rank::Queen,
        _ => Rank::King,
    }
}

fn suit_in_deck_order(i: usize) -> (s: Suit)
    requires
        i < 4,
    ensures
        s == suit_at(i as int),
{
    match i {
        0 => Suit::Spades,
        1 => Suit::Hearts,
        2 => Suit::Diamonds,
        _ => Suit::Clubs,
    }
}

impl Card {
    pub fn new(rank: Rank, suit: Suit) -> (c: Card)
        ensures
            c.rank == rank,
            c.suit == suit,
    {
        Card { rank, suit }
    }

    /// The card's canonical text, "<rank> of <suit>", as signed by a draw.
    pub fn to_string(&self) -> (s: String)
        ensures
            s@ == card_text(*self),
    {
        let mut s = String::from_str(rank_name(self.rank));
        s.append(" of ");
        s.append(suit_name(self.suit));
        s
    }

    /// The card's game value (2 to 14).
    pub fn get_card_value(&self) -> (v: u32)
        ensures
            v == rank_value(self.rank),
            2 <= v <= 14,
    {
        match self.rank {
            Rank::Two => 2,
            Rank::Three => 3,
            Rank::Four => 4,
            Rank::Five => 5,
            Rank::Six => 6,
            Rank::Seven => 7,
            Rank::Eight => 8,
            Rank::Nine => 9,
            Rank::Ten => 10,
            Rank::Jack => 11,
            Rank::Queen => 12,
            Rank::King => 13,
            Rank::Ace => 14,
        }
    }
}

/// Compares two cards by value: the first or the second wins when its value
/// is higher, and equal values tie.
pub fn compare_cards(card_a: &Card, card_b: &Card) -> (w: Winner)
    ensures
        w == winner_of(*card_a, *card_b),
{
    let value_a = card_a.get_card_value();
    let value_b = card_b.get_card_value();
    if value_a > value_b {
        Winner::First
    } else if value_b > value_a {
        Winner::Second
    } else {
        Winner::Tie
    }
}

/// Builds the standard 52-card deck, suit by suit (Spades, Hearts, Diamonds,
/// Clubs), each suit in the order Ace, 2, ..., 10, Jack, Queen, King.
pub fn generate_deck() -> (deck: Vec<Card>)
    ensures
        deck@ == standard_deck(),
{
    let mut deck: Vec<Card> = Vec::new();
    let mut s: usize = 0;
    while s < 4
        invariant
            s <= 4,
            deck@.len() == s * RANKS_PER_SUIT,
            forall|i: int| 0 <= i < deck@.len() ==> #[trigger] deck@[i] == standard_deck()[i],
        decreases 4 - s,
    {
        let suit = suit_in_deck_order(s);
        let mut r: usize = 0;
        while r < RANKS_PER_SUIT
            invariant
                s < 4,
                r <= RANKS_PER_SUIT,
                suit == suit_at(s as int),
                deck@.len() == s * RANKS_PER_SUIT + r,
                forall|i: int| 0 <= i < deck@.len() ==> #[trigger] deck@[i] == standard_deck()[i],
            decreases RANKS_PER_SUIT - r,
        {
            let card = Card::new(rank_in_deck_order(r), suit);
            proof {
                let k = (s * RANKS_PER_SUIT + r) as int;
                assert(k / 13 == s as int && k % 13 == r as int) by (nonlinear_arith)
                    requires
                        k == s * 13 + r,
                        0 <= r < 13,
                        s >= 0,
                ;
            }
            deck.push(card);
            r = r + 1;
        }
        s = s + 1;
    }
    assert(deck@ =~= standard_deck());
    deck
}

} // verus!
