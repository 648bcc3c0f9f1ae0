//! A player: a keypair, a score kept for the game, and the ledger of every
//! card the player drew with the VRF output and proof that came with it.

use vstd::prelude::*;
use schnorrkel::vrf::{VRFInOut, VRFProof};
use schnorrkel::Keypair;
use crate::card::Card;
use crate::vrf::{
    context_of, generate_keypair, is_identity_output, message_of, output_is_identity, public_matches_secret,
    random_index, sign_card, verify_signed_card, vrf_accepts, vrf_output_of, MAX_TRANSCRIPT_MESSAGE,
};

verus! {

/// One draw: the card, the VRF output and the proof for it.
pub type LedgerEntry = (Card, VRFInOut, VRFProof);

/// Why a draw could not take place.
#[derive(Clone, Copy, Debug, PartialEq, Eq, Structural)]
pub enum DrawError {
    /// The deck holds no card to draw.
    EmptyDeck,
    /// The drawn card's VRF output under the player's key and name is the
    /// identity point, which no verifier accepts, so nothing was recorded.
    DegenerateOutput,
}

/// What a player is, as the contracts see it.
pub struct PlayerView {
    pub name: Seq<char>,
    pub score: u32,
    pub keypair: Keypair,
    pub ledger: Seq<LedgerEntry>,
}

pub struct Player {
    name: String,
    score: u32,
    keypair: Keypair,
    drawn_cards: Vec<LedgerEntry>,
}

/// Whether entry `i` of the player's ledger verifies under the player's key
/// and context.
pub open spec fn entry_verifies(p: PlayerView, i: int) -> bool {
    vrf_accepts(p.keypair, context_of(p.name), message_of(p.ledger[i].0), p.ledger[i].1, p.ledger[i].2)
}

/// Whether `i` is the index of the earliest ledger entry for card `c`.
pub open spec fn is_first_entry(ledger: Seq<LedgerEntry>, c: Card, i: int) -> bool {
    &&& 0 <= i < ledger.len()
    &&& ledger[i].0 == c
    &&& forall|j: int| 0 <= j < i ==> (#[trigger] ledger[j]).0 != c
}

/// Whether the player's ledger holds card `c`.
pub open spec fn has_drawn(p: PlayerView, c: Card) -> bool {
    exists|i: int| 0 <= i < p.ledger.len() && (#[trigger] p.ledger[i]).0 == c
}

/// What verifying card `c` answers: the earliest entry for `c` exists and
/// its proof verifies.
pub open spec fn card_verifies(p: PlayerView, c: Card) -> bool {
    exists|i: int| #[trigger] is_first_entry(p.ledger, c, i) && entry_verifies(p, i)
}

/// Whether the player can record card `c`: the VRF output for `c` under its
/// key and name is not the identity point.
pub open spec fn draws_cleanly(p: PlayerView, c: Card) -> bool {
    !is_identity_output(vrf_output_of(p.keypair, context_of(p.name), message_of(c)))
}

/// The player is well formed: its public key is derived from its secret key,
/// its context label fits a signing transcript, and every entry of its ledger
/// verifies.
pub open spec fn player_wf(p: PlayerView) -> bool {
    &&& public_matches_secret(p.keypair)
    &&& context_of(p.name).len() <= MAX_TRANSCRIPT_MESSAGE
    &&& forall|i: int| 0 <= i < p.ledger.len() ==> #[trigger] entry_verifies(p, i)
}

/// `after` is `before` with one more draw, of card `c`: name, score and key
/// are kept, and the ledger gains one entry for `c` at its end.
pub open spec fn is_draw_of(before: PlayerView, after: PlayerView, c: Card) -> bool {
    &&& after.name == before.name
    &&& after.score == before.score
    &&& after.keypair == before.keypair
    &&& after.ledger.len() == before.ledger.len() + 1
    &&& after.ledger.subrange(0, before.ledger.len() as int) == before.ledger
    &&& after.ledger.last().0 == c
}

/// `after` is `before` with one more draw, of card `c`, and the score set to
/// any value on the way (as a game does between draws).
pub open spec fn is_scored_draw_of(before: PlayerView, after: PlayerView, c: Card) -> bool {
    is_draw_of(before, PlayerView { score: before.score, ..after }, c)
}

/// A card that a well-formed player drew verifies: signing and then
/// verifying under the same key, context and message succeeds.
pub proof fn lemma_drawn_card_verifies(p: PlayerView, c: Card)
    requires
        player_wf(p),
        has_drawn(p, c),
    ensures
        card_verifies(p, c),
{
    let k = choose|k: int| 0 <= k < p.ledger.len() && (#[trigger] p.ledger[k]).0 == c;
    lemma_first_entry_exists(p.ledger, c, k);
    let i = choose|i: int| is_first_entry(p.ledger, c, i);
    assert(entry_verifies(p, i));
}

/// A new player that then draws N times, scores set in between, holds
/// exactly N ledger entries, one per draw in the order drawn.
pub proof fn lemma_ledger_after_draws_from_new(states: Seq<PlayerView>, cards: Seq<Card>)
    requires
        states.len() == cards.len() + 1,
        states[0].ledger.len() == 0,
        forall|i: int| 0 <= i < cards.len() ==> is_scored_draw_of(states[i], #[trigger] states[i + 1], cards[i]),
    ensures
        states.last().ledger.len() == cards.len(),
        forall|i: int| 0 <= i < cards.len() ==> #[trigger] states.last().ledger[i].0 == cards[i],
{
    lemma_ledger_append_only(states, cards);
    assert forall|i: int| 0 <= i < cards.len() implies #[trigger] states.last().ledger[i].0 == cards[i] by {
        assert(states.last().ledger[states[0].ledger.len() + i].0 == cards[i]);
    }
}

proof fn lemma_first_entry_exists(ledger: Seq<LedgerEntry>, c: Card, k: int)
    requires
        0 <= k < ledger.len(),
        ledger[k].0 == c,
    ensures
        exists|i: int| is_first_entry(ledger, c, i),
    decreases k,
{
    if exists|j: int| 0 <= j < k && (#[trigger] ledger[j]).0 == c {
        let j = choose|j: int| 0 <= j < k && (#[trigger] ledger[j]).0 == c;
        lemma_first_entry_exists(ledger, c, j);
    } else {
        assert(is_first_entry(ledger, c, k));
    }
}

/// A card that the player never drew does not verify.
pub proof fn lemma_unknown_card_rejected(p: PlayerView, c: Card)
    requires
        !has_drawn(p, c),
    ensures
        !card_verifies(p, c),
{
    assert forall|i: int| !(#[trigger] is_first_entry(p.ledger, c, i)) by {
        if is_first_entry(p.ledger, c, i) {
            assert(p.ledger[i].0 == c);
        }
    }
}

/// Verifying a card gives the same answer every time the player is the same.
pub proof fn lemma_verify_card_idempotent(p: PlayerView, q: PlayerView, c: Card)
    requires
        p == q,
    ensures
        card_verifies(p, c) == card_verifies(q, c),
{
}

/// After a run of draws, each state one draw after the one before it (scores
/// set in between), the ledger holds one more entry per draw, in the order
/// drawn, and the entries it held at the start stand unchanged at its front.
pub proof fn lemma_ledger_append_only(states: Seq<PlayerView>, cards: Seq<Card>)
    requires
        states.len() == cards.len() + 1,
        forall|i: int| 0 <= i < cards.len() ==> is_scored_draw_of(states[i], #[trigger] states[i + 1], cards[i]),
    ensures
        states.last().ledger.len() == states[0].ledger.len() + cards.len(),
        states.last().ledger.subrange(0, states[0].ledger.len() as int) == states[0].ledger,
        forall|i: int| 0 <= i < cards.len() ==> #[trigger] states.last().ledger[states[0].ledger.len() + i].0 == cards[i],
    decreases cards.len(),
{
    if cards.len() > 0 {
        let n = cards.len() - 1;
        let front = states.subrange(0, n + 1);
        let first_cards = cards.subrange(0, n);
        assert forall|i: int| 0 <= i < first_cards.len() implies is_scored_draw_of(front[i], #[trigger] front[i + 1], first_cards[i]) by {
            assert(is_scored_draw_of(states[i], states[i + 1], cards[i]));
        }
        lemma_ledger_append_only(front, first_cards);
        let mid = front.last();
        let last = states.last();
        assert(mid == states[n]);
        assert(is_scored_draw_of(states[n], states[n + 1], cards[n]));
        let start = states[0].ledger.len() as int;
        assert(last.ledger.subrange(0, mid.ledger.len() as int) == mid.ledger);
        assert(last.ledger.subrange(0, start) =~= mid.ledger.subrange(0, start));
        assert forall|i: int| 0 <= i < cards.len() implies #[trigger] last.ledger[start + i].0 == cards[i] by {
            if i < n {
                assert(mid.ledger[start + i].0 == first_cards[i]);
                assert(last.ledger.subrange(0, mid.ledger.len() as int)[start + i] == mid.ledger[start + i]);
            }
        }
    }
}

impl View for Player {
    type V = PlayerView;

    closed spec fn view(&self) -> PlayerView {
        PlayerView { name: self.name@, score: self.score, keypair: self.keypair, ledger: self.drawn_cards@ }
    }
}

impl Player {
    /// A new player with a fresh keypair, score 0 and an empty ledger.
    pub fn new(name: String) -> (p: Player)
        requires
            context_of(name@).len() <= MAX_TRANSCRIPT_MESSAGE,
        ensures
            p@.name == name@,
            p@.score == 0,
            p@.ledger.len() == 0,
            public_matches_secret(p@.keypair),
            player_wf(p@),
    {
        let keypair = generate_keypair();
        Player { name, score: 0, keypair, drawn_cards: Vec::new() }
    }

    pub fn get_name(&self) -> (n: &str)
        ensures
            n@ == self@.name,
    {
        self.name.as_str()
    }

    pub fn get_score(&self) -> (s: u32)
        ensures
            s == self@.score,
    {
        self.score
    }

    /// The number of entries in the ledger, one per draw.
    pub fn draw_count(&self) -> (n: usize)
        ensures
            n == self@.ledger.len(),
    {
        self.drawn_cards.len()
    }

    pub fn set_score(&mut self, score: u32)
        ensures
            final(self)@ == (PlayerView { score, ..old(self)@ }),
            player_wf(old(self)@) ==> player_wf(final(self)@),
    {
        let ghost before = self@;
        self.score = score;
        proof {
            if player_wf(before) {
                assert forall|i: int| 0 <= i < self@.ledger.len() implies #[trigger] entry_verifies(self@, i) by {
                    assert(entry_verifies(before, i));
                }
            }
        }
    }

    /// Checks that this player drew `card`: finds the earliest ledger entry
    /// for it and verifies that entry's proof under the player's key, its
    /// name as context and the card's text as message. A card never drawn
    /// gives false.
    pub fn verify_card(&self, card: &Card) -> (ok: bool)
        requires
            player_wf(self@),
        ensures
            ok == card_verifies(self@, *card),
            ok == has_drawn(self@, *card),
    {
        let mut i: usize = 0;
        while i < self.drawn_cards.len()
            invariant
                i <= self.drawn_cards@.len(),
                player_wf(self@),
                forall|j: int| 0 <= j < i ==> (#[trigger] self.drawn_cards@[j]).0 != *card,
            decreases self.drawn_cards@.len() - i,
        {
            let entry = &self.drawn_cards[i];
            if entry.0 == *card {
                proof {
                    assert(self@.ledger[i as int] == *entry);
                }
                let ok = verify_signed_card(&self.keypair, self.name.as_str(), card, &entry.1, &entry.2);
                assert(is_first_entry(self@.ledger, *card, i as int));
                assert(entry_verifies(self@, i as int));
                return ok;
            }
            i = i + 1;
        }
        proof {
            assert forall|k: int| !(#[trigger] is_first_entry(self@.ledger, *card, k)) by {
                if 0 <= k < self@.ledger.len() {
                    assert(self@.ledger[k] == self.drawn_cards@[k]);
                }
            }
        }
        false
    }

    /// Draws the card at `index` of `deck`: signs its text under this
    /// player's key and name and appends the card with its VRF output and
    /// proof to the ledger. A card whose output is the identity point (only
    /// possible for a degenerate key) is refused and leaves the player
    /// unchanged.
    pub fn draw_card_at(&mut self, deck: &Vec<Card>, index: usize) -> (r: Result<Card, DrawError>)
        requires
            player_wf(old(self)@),
            index < deck@.len(),
        ensures
            r == (if draws_cleanly(old(self)@, deck@[index as int]) {
                Ok::<Card, DrawError>(deck@[index as int])
            } else {
                Err::<Card, DrawError>(DrawError::DegenerateOutput)
            }),
            r is Err ==> final(self)@ == old(self)@,
            r matches Ok(c) ==> {
                &&& is_draw_of(old(self)@, final(self)@, c)
                &&& final(self)@.ledger.last().1 == vrf_output_of(old(self)@.keypair, context_of(old(self)@.name), message_of(c))
            },
            player_wf(final(self)@),
    {
        let card = deck[index];
        let (out, proof) = sign_card(&self.keypair, self.name.as_str(), &card);
        if output_is_identity(&out) {
            return Err(DrawError::DegenerateOutput);
        }
        let ghost before = self@;
        self.drawn_cards.push((card, out, proof));
        proof {
            assert(self@.ledger.subrange(0, before.ledger.len() as int) =~= before.ledger);
            assert forall|i: int| 0 <= i < self@.ledger.len() implies #[trigger] entry_verifies(self@, i) by {
                if i < before.ledger.len() {
                    assert(entry_verifies(before, i));
                    assert(self@.ledger[i] == before.ledger[i]);
                }
            }
        }
        Ok(card)
    }

    /// Draws a card uniformly from `deck` (which is left as it is) and
    /// records it as `draw_card_at` does. An empty deck is refused and leaves
    /// the player unchanged; a non-empty deck always gives a card when every
    /// card of it draws cleanly, as it does for any key with a nonzero secret.
    pub fn draw_card(&mut self, deck: &Vec<Card>) -> (r: Result<Card, DrawError>)
        requires
            player_wf(old(self)@),
        ensures
            r == Err::<Card, DrawError>(DrawError::EmptyDeck) <==> deck@.len() == 0,
            deck@.len() > 0 && (forall|i: int| 0 <= i < deck@.len() ==> draws_cleanly(old(self)@, #[trigger] deck@[i]))
                ==> r is Ok,
            r == Err::<Card, DrawError>(DrawError::DegenerateOutput) ==> exists|i: int|
                0 <= i < deck@.len() && !draws_cleanly(old(self)@, #[trigger] deck@[i]),
            r is Err ==> final(self)@ == old(self)@,
            r matches Ok(c) ==> {
                &&& deck@.contains(c)
                &&& is_draw_of(old(self)@, final(self)@, c)
                &&& final(self)@.ledger.last().1 == vrf_output_of(old(self)@.keypair, context_of(old(self)@.name), message_of(c))
            },
            player_wf(final(self)@),
    {
        if deck.len() == 0 {
            return Err(DrawError::EmptyDeck);
        }
        let index = random_index(deck.len());
        let r = self.draw_card_at(deck, index);
        proof {
            if r is Ok {
                assert(deck@[index as int] == r->Ok_0);
            } else {
                assert(!draws_cleanly(old(self)@, deck@[index as int]));
            }
        }
        r
    }
}

} // verus!
