//! Verifiably fair card draws: each player signs every card it draws with a
//! verifiable random function, and anyone holding the player's public key can
//! later check that the card was drawn honestly.

pub mod card;
pub mod player;
pub mod vrf;
pub mod game;
