//! One round of the game: both players draw, the higher card wins, and the
//! winner scores a point once its card verifies.

use vstd::prelude::*;
use crate::card::{compare_cards, winner_of, Card, Winner};
use crate::player::{draws_cleanly, has_drawn, is_draw_of, player_wf, DrawError, Player, PlayerView};

verus! {

/// `after` is `before` after one drawing of card `c` in a round, with the
/// score raised by `points`.
pub open spec fn is_round_of(before: PlayerView, after: PlayerView, c: Card, points: u32) -> bool {
    &&& is_draw_of(before, PlayerView { score: before.score, ..after }, c)
    &&& after.score == before.score + points
}

/// Plays a round: `first` and then `second` draw from `deck`, the cards are
/// compared, and the winner's score rises by one when the winner's card
/// verifies (which, for well-formed players, it always does). An empty deck
/// is refused and leaves both players unchanged. A round on a non-empty deck
/// always completes when every card draws cleanly for both players; a
/// refused draw ends it with no score, the first player keeping its draw if
/// it had made one.
pub fn play_round(first: &mut Player, second: &mut Player, deck: &Vec<Card>) -> (r: Result<Winner, DrawError>)
    requires
        player_wf(old(first)@),
        player_wf(old(second)@),
        old(first)@.score < u32::MAX,
        old(second)@.score < u32::MAX,
    ensures
        r == Err::<Winner, DrawError>(DrawError::EmptyDeck) <==> deck@.len() == 0,
        deck@.len() > 0 && (forall|i: int|
            0 <= i < deck@.len() ==> draws_cleanly(old(first)@, #[trigger] deck@[i]) && draws_cleanly(
                old(second)@,
                deck@[i],
            )) ==> r is Ok,
        r is Err ==> final(second)@ == old(second)@,
        r is Err ==> final(first)@ == old(first)@ || is_draw_of(
            old(first)@,
            final(first)@,
            final(first)@.ledger.last().0,
        ),
        r matches Ok(w) ==> {
            let c1 = final(first)@.ledger.last().0;
            let c2 = final(second)@.ledger.last().0;
            &&& deck@.contains(c1)
            &&& deck@.contains(c2)
            &&& w == winner_of(c1, c2)
            &&& is_round_of(old(first)@, final(first)@, c1, if w == Winner::First { 1 } else { 0 })
            &&& is_round_of(old(second)@, final(second)@, c2, if w == Winner::Second { 1 } else { 0 })
        },
        player_wf(final(first)@),
        player_wf(final(second)@),
{
    let card_first = match first.draw_card(deck) {
        Ok(c) => c,
        Err(e) => {
            return Err(e);
        },
    };
    let card_second = match second.draw_card(deck) {
        Ok(c) => c,
        Err(e) => {
            return Err(e);
        },
    };
    let ghost first_drawn = first@;
    let ghost second_drawn = second@;
    proof {
        assert(first_drawn.ledger[first_drawn.ledger.len() - 1].0 == card_first);
        assert(has_drawn(first_drawn, card_first));
        assert(second_drawn.ledger[second_drawn.ledger.len() - 1].0 == card_second);
        assert(has_drawn(second_drawn, card_second));
    }
    let winner = compare_cards(&card_first, &card_second);
    match winner {
        Winner::First => {
            if first.verify_card(&card_first) {
                let score = first.get_score();
                first.set_score(score + 1);
            }
        },
        Winner::Second => {
            if second.verify_card(&card_second) {
                let score = second.get_score();
                second.set_score(score + 1);
            }
        },
        Winner::Tie => {},
    }
    proof {
        assert(PlayerView { score: old(first)@.score, ..first@ } == PlayerView { score: old(first)@.score, ..first_drawn });
        assert(PlayerView { score: old(second)@.score, ..second@ } == PlayerView { score: old(second)@.score, ..second_drawn });
    }
    Ok(winner)
}

} // verus!
