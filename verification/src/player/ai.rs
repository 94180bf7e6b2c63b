//! A simple player: it wins when it can, else discards what it drew.

use vstd::prelude::*;
use crate::action::Action;
use crate::hand::representation::{expand, Hand};
use crate::tile::Tile;

verus! {

/// The place of the first discard of the list, or the length of the
/// list.
pub open spec fn first_discard_at(actions: Seq<Action>) -> int
    decreases actions.len(),
{
    if actions.len() == 0 {
        0
    } else if actions[0] is Discard {
        0
    } else {
        1 + first_discard_at(actions.drop_first())
    }
}

/// The place of the first action of the list that is no pass, or the
/// length of the list.
pub open spec fn first_move_at(actions: Seq<Action>) -> int
    decreases actions.len(),
{
    if actions.len() == 0 {
        0
    } else if !(actions[0] is Pass) {
        0
    } else {
        1 + first_move_at(actions.drop_first())
    }
}

/// The action chosen among the possible ones: a win by draw if there is
/// one; else the discard of the drawn tile; else the first discard; else
/// the first action that is no pass; else the first action.
pub open spec fn chosen(drawn: Option<Tile>, actions: Seq<Action>) -> Option<Action> {
    if actions.len() == 0 {
        None
    } else if actions.contains(Action::Tsumo) {
        Some(Action::Tsumo)
    } else if drawn is Some && actions.contains(Action::Discard(drawn->0)) {
        Some(Action::Discard(drawn->0))
    } else if first_discard_at(actions) < actions.len() {
        Some(actions[first_discard_at(actions)])
    } else if first_move_at(actions) < actions.len() {
        Some(actions[first_move_at(actions)])
    } else {
        Some(actions[0])
    }
}

/// Whether the action is in the list.
fn has_action(actions: &[Action], action: Action) -> (found: bool)
    ensures
        found == actions@.contains(action),
{
    let mut i: usize = 0;
    while i < actions.len()
        invariant
            i <= actions@.len(),
            forall|k: int| 0 <= k < i ==> actions@[k] != action,
        decreases actions@.len() - i,
    {
        if actions[i] == action {
            return true;
        }
        i = i + 1;
    }
    false
}

/// The place of the first discard of the list, or its length.
fn first_discard(actions: &[Action]) -> (place: usize)
    ensures
        place == first_discard_at(actions@),
        place <= actions@.len(),
{
    let mut i: usize = 0;
    assert(actions@.skip(0) =~= actions@);
    while i < actions.len()
        invariant
            i <= actions@.len(),
            first_discard_at(actions@) == i + first_discard_at(actions@.skip(i as int)),
        decreases actions@.len() - i,
    {
        assert(actions@.skip(i as int).drop_first() =~= actions@.skip(i + 1));
        match actions[i] {
            Action::Discard(_) => {
                return i;
            },
            _ => {},
        }
        i = i + 1;
    }
    i
}

/// The place of the first action of the list that is no pass, or its
/// length.
fn first_move(actions: &[Action]) -> (place: usize)
    ensures
        place == first_move_at(actions@),
        place <= actions@.len(),
{
    let mut i: usize = 0;
    assert(actions@.skip(0) =~= actions@);
    while i < actions.len()
        invariant
            i <= actions@.len(),
            first_move_at(actions@) == i + first_move_at(actions@.skip(i as int)),
        decreases actions@.len() - i,
    {
        assert(actions@.skip(i as int).drop_first() =~= actions@.skip(i + 1));
        match actions[i] {
            Action::Pass => {},
            _ => {
                return i;
            },
        }
        i = i + 1;
    }
    i
}

/// Chooses among the possible actions: the action that `chosen` names.
pub fn choose_action(hand: &Hand, possible_actions: &[Action]) -> (choice: Option<Action>)
    ensures
        choice == chosen(hand@.drawn, possible_actions@),
{
    if possible_actions.len() == 0 {
        return None;
    }
    if has_action(possible_actions, Action::Tsumo) {
        return Some(Action::Tsumo);
    }
    match hand.get_drawn_tile() {
        Some(drawn_tile) => {
            if has_action(possible_actions, Action::Discard(drawn_tile)) {
                return Some(Action::Discard(drawn_tile));
            }
        },
        None => {},
    }
    let discard: usize = first_discard(possible_actions);
    if discard < possible_actions.len() {
        return Some(possible_actions[discard]);
    }
    let other: usize = first_move(possible_actions);
    if other < possible_actions.len() {
        return Some(possible_actions[other]);
    }
    Some(possible_actions[0])
}

/// The discard of the simple player: the drawn tile, else the concealed
/// tile with the lowest id; nothing if the hand holds no tile.
pub fn choose_discard(hand: &Hand) -> (choice: Option<Action>)
    requires
        hand.wf(),
    ensures
        choice == match hand@.drawn {
            Some(drawn) => Some(Action::Discard(drawn)),
            None => if expand(hand@.counts, 43).len() > 0 {
                Some(Action::Discard(expand(hand@.counts, 43)[0]))
            } else {
                None
            },
        },
{
    match hand.get_drawn_tile() {
        Some(drawn) => Some(Action::Discard(drawn)),
        None => {
            let closed: Vec<Tile> = hand.get_closed_tiles();
            if closed.len() > 0 {
                Some(Action::Discard(closed[0]))
            } else {
                None
            }
        },
    }
}

} // verus!
