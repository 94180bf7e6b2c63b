//! Who decides for a player: a person, the simple player of this
//! library, or someone remote.

use vstd::prelude::*;
use crate::action::{Action, ActionEvent};
use crate::player::ai::{choose_action, chosen};
use crate::player::model::Player;

verus! {

/// The kinds of the simple player.
#[derive(Debug, Clone, Copy, PartialEq, Eq, Structural)]
pub enum AiType {
    Simple,
}

/// Who decides for a player.
#[derive(Debug, Clone, Copy, PartialEq, Eq, Structural)]
pub enum PlayerAgent {
    /// A person, who is asked elsewhere.
    Human,
    /// The simple player.
    Ai(AiType),
    /// Someone remote, who is asked elsewhere.
    Remote,
}

/// The response of the simple player to the action of another: the
/// first win on the discard that is possible, else the first pass.
pub open spec fn response(actions: Seq<Action>) -> Option<Action> {
    if first_ron(actions) < actions.len() {
        Some(actions[first_ron(actions)])
    } else if actions.contains(Action::Pass) {
        Some(Action::Pass)
    } else {
        None
    }
}

/// The place of the first win on a discard in the list, or its length.
pub open spec fn first_ron(actions: Seq<Action>) -> int
    decreases actions.len(),
{
    if actions.len() == 0 {
        0
    } else if actions[0] is Ron {
        0
    } else {
        1 + first_ron(actions.drop_first())
    }
}

impl PlayerAgent {
    /// The action that the agent decides on for the player. The simple
    /// player chooses at once; a person or someone remote has to be
    /// asked, and nothing is decided here.
    pub fn decide_action(&self, player: &Player, possible_actions: &[Action]) -> (choice: Option<
        Action,
    >)
        ensures
            choice == match *self {
                PlayerAgent::Ai(_) => chosen(player.hand@.drawn, possible_actions@),
                _ => None,
            },
    {
        match self {
            PlayerAgent::Human => None,
            PlayerAgent::Ai(ai_type) => match ai_type {
                AiType::Simple => choose_action(&player.hand, possible_actions),
            },
            PlayerAgent::Remote => None,
        }
    }

    /// The response that the agent decides on to the action of another
    /// player. The simple player wins if it can and passes if not; a
    /// person or someone remote has to be asked.
    pub fn respond_to_action(
        &self,
        player: &Player,
        event: &ActionEvent,
        possible_responses: &[Action],
    ) -> (choice: Option<Action>)
        ensures
            choice == match *self {
                PlayerAgent::Ai(_) => response(possible_responses@),
                _ => None,
            },
    {
        match self {
            PlayerAgent::Human => None,
            PlayerAgent::Remote => None,
            PlayerAgent::Ai(_) => {
                let mut i: usize = 0;
                let mut passes: bool = false;
                assert(possible_responses@.skip(0) =~= possible_responses@);
                while i < possible_responses.len()
                    invariant
                        *self is Ai,
                        i <= possible_responses@.len(),
                        passes == possible_responses@.take(i as int).contains(Action::Pass),
                        first_ron(possible_responses@) == i + first_ron(
                            possible_responses@.skip(i as int),
                        ),
                    decreases possible_responses@.len() - i,
                {
                    assert(possible_responses@.skip(i as int).drop_first()
                        =~= possible_responses@.skip(i + 1));
                    match possible_responses[i] {
                        Action::Ron(_) => {
                            return Some(possible_responses[i]);
                        },
                        Action::Pass => {
                            passes = true;
                        },
                        _ => {},
                    }
                    assert(possible_responses@.take(i + 1).contains(Action::Pass) == (
                    possible_responses@.take(i as int).contains(Action::Pass)
                        || possible_responses@[i as int] == Action::Pass)) by {
                        let longer = possible_responses@.take(i + 1);
                        if possible_responses@[i as int] == Action::Pass {
                            assert(longer[i as int] == Action::Pass);
                        }
                    }
                    i = i + 1;
                }
                if passes {
                    Some(Action::Pass)
                } else {
                    None
                }
            },
        }
    }
}

} // verus!
