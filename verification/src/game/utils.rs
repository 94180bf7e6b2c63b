//! The order of the four seats.

use vstd::prelude::*;

verus! {

/// The seat after a seat, going round the four seats.
pub fn next_player_index(current_index: usize) -> (next: usize)
    ensures
        next == (current_index + 1) % 4,
        next < 4,
{
    (current_index % 4 + 1) % 4
}

/// The seat before a seat, going round the four seats.
pub fn prev_player_index(current_index: usize) -> (previous: usize)
    ensures
        previous == (current_index + 3) % 4,
        previous < 4,
{
    (current_index % 4 + 3) % 4
}

/// A helper that shows how the helpers of this module are called: it has
/// nothing to decide and says yes.
pub fn example_game_util() -> (yes: bool)
    ensures
        yes,
{
    true
}

/// The seats go round: the seat after the seat before a seat is the
/// seat, and so the other way round.
pub proof fn lemma_seats_go_round(seat: int)
    requires
        0 <= seat < 4,
    ensures
        ((seat + 3) % 4 + 1) % 4 == seat,
        ((seat + 1) % 4 + 3) % 4 == seat,
{
}

} // verus!
