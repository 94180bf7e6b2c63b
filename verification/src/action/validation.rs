//! Whether an action can be written down at all.

use vstd::prelude::*;
use crate::action::serialization::action_wf;
use crate::action::types::{Action, KanType};

verus! {

/// Checks that the tiles of an action are well formed; an action that
/// names a tile that does not exist is refused with a message.
pub fn validate_action(action: &Action) -> (checked: Result<(), String>)
    ensures
        checked is Ok == action_wf(*action),
{
    let valid: bool = match action {
        Action::Discard(tile) => tile.is_valid(),
        Action::Chi(first, second, third) => first.is_valid() && second.is_valid()
            && third.is_valid(),
        Action::Pon(tile) => tile.is_valid(),
        Action::Kan(KanType::Closed(tile)) => tile.is_valid(),
        Action::Kan(KanType::Added(tile)) => tile.is_valid(),
        Action::Kan(KanType::Open(tile)) => tile.is_valid(),
        Action::Riichi(tile) => tile.is_valid(),
        Action::Tsumo => true,
        Action::Ron(tile) => tile.is_valid(),
        Action::Pass => true,
    };
    if valid {
        Ok(())
    } else {
        Err(String::from_str("Action names a tile that does not exist"))
    }
}

} // verus!
