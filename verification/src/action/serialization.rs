//! Actions as short texts: a letter for the kind of action, then each
//! tile as the two digits of its id.

use vstd::prelude::*;
use crate::action::types::{Action, KanType};
use crate::hand::parser::chars_of;
use crate::text::{digit_char, digit_str, lemma_digit_text};
use crate::tile::tile::{lemma_id_round_trip, tile_from_id, tile_id};
use crate::tile::Tile;

verus! {

/// The two digits of an id.
pub open spec fn id_text(id: int) -> Seq<char> {
    seq![digit_char((id / 10) as nat), digit_char((id % 10) as nat)]
}

/// The text of an action.
pub open spec fn action_text(action: Action) -> Seq<char> {
    match action {
        Action::Discard(tile) => seq!['D'] + id_text(tile_id(tile)),
        Action::Chi(first, second, third) => seq!['C'] + id_text(tile_id(first)) + id_text(
            tile_id(second),
        ) + id_text(tile_id(third)),
        Action::Pon(tile) => seq!['P'] + id_text(tile_id(tile)),
        Action::Kan(KanType::Closed(tile)) => seq!['K', 'c'] + id_text(tile_id(tile)),
        Action::Kan(KanType::Added(tile)) => seq!['K', 'a'] + id_text(tile_id(tile)),
        Action::Kan(KanType::Open(tile)) => seq!['K', 'o'] + id_text(tile_id(tile)),
        Action::Riichi(tile) => seq!['R'] + id_text(tile_id(tile)),
        Action::Tsumo => seq!['T'],
        Action::Ron(tile) => seq!['N'] + id_text(tile_id(tile)),
        Action::Pass => seq!['-'],
    }
}

/// The digit that a character stands for, or 10.
pub open spec fn char_digit(c: char) -> int {
    if c == '0' {
        0
    } else if c == '1' {
        1
    } else if c == '2' {
        2
    } else if c == '3' {
        3
    } else if c == '4' {
        4
    } else if c == '5' {
        5
    } else if c == '6' {
        6
    } else if c == '7' {
        7
    } else if c == '8' {
        8
    } else if c == '9' {
        9
    } else {
        10
    }
}

/// The tile whose id the two characters at `at` spell, if they are
/// digits and spell the id of a tile.
pub open spec fn tile_in(text: Seq<char>, at: int) -> Option<Tile> {
    if at + 2 <= text.len() && char_digit(text[at]) < 10 && char_digit(text[at + 1]) < 10 {
        tile_from_id(10 * char_digit(text[at]) + char_digit(text[at + 1]))
    } else {
        None
    }
}

/// The action that a text spells, if it spells one.
pub open spec fn text_action(text: Seq<char>) -> Option<Action> {
    if text.len() == 1 && text[0] == 'T' {
        Some(Action::Tsumo)
    } else if text.len() == 1 && text[0] == '-' {
        Some(Action::Pass)
    } else if text.len() == 3 && tile_in(text, 1) is Some {
        if text[0] == 'D' {
            Some(Action::Discard(tile_in(text, 1).unwrap()))
        } else if text[0] == 'P' {
            Some(Action::Pon(tile_in(text, 1).unwrap()))
        } else if text[0] == 'R' {
            Some(Action::Riichi(tile_in(text, 1).unwrap()))
        } else if text[0] == 'N' {
            Some(Action::Ron(tile_in(text, 1).unwrap()))
        } else {
            None
        }
    } else if text.len() == 4 && text[0] == 'K' && tile_in(text, 2) is Some {
        if text[1] == 'c' {
            Some(Action::Kan(KanType::Closed(tile_in(text, 2).unwrap())))
        } else if text[1] == 'a' {
            Some(Action::Kan(KanType::Added(tile_in(text, 2).unwrap())))
        } else if text[1] == 'o' {
            Some(Action::Kan(KanType::Open(tile_in(text, 2).unwrap())))
        } else {
            None
        }
    } else if text.len() == 7 && text[0] == 'C' && tile_in(text, 1) is Some && tile_in(text, 3)
        is Some && tile_in(text, 5) is Some {
        Some(
            Action::Chi(
                tile_in(text, 1).unwrap(),
                tile_in(text, 3).unwrap(),
                tile_in(text, 5).unwrap(),
            ),
        )
    } else {
        None
    }
}

/// The tiles of an action are well formed.
pub open spec fn action_wf(action: Action) -> bool {
    match action {
        Action::Discard(tile) => tile.wf(),
        Action::Chi(first, second, third) => first.wf() && second.wf() && third.wf(),
        Action::Pon(tile) => tile.wf(),
        Action::Kan(kind) => kind.spec_tile().wf(),
        Action::Riichi(tile) => tile.wf(),
        Action::Tsumo => true,
        Action::Ron(tile) => tile.wf(),
        Action::Pass => true,
    }
}

/// The two digits of the id of a tile spell the tile.
pub proof fn lemma_id_text_round_trip(tile: Tile, text: Seq<char>, at: int)
    requires
        tile.wf(),
        0 <= at,
        at + 2 <= text.len(),
        text.subrange(at, at + 2) == id_text(tile_id(tile)),
    ensures
        tile_in(text, at) == Some(tile),
{
    lemma_id_round_trip(tile);
}

/// The text of an action spells the action again.
pub proof fn lemma_action_text_round_trip(action: Action)
    requires
        action_wf(action),
    ensures
        text_action(action_text(action)) == Some(action),
{
    let text = action_text(action);
    match action {
        Action::Discard(tile) => {
            assert(text.subrange(1, 3) =~= id_text(tile_id(tile)));
            lemma_id_text_round_trip(tile, text, 1);
        },
        Action::Pon(tile) => {
            assert(text.subrange(1, 3) =~= id_text(tile_id(tile)));
            lemma_id_text_round_trip(tile, text, 1);
        },
        Action::Riichi(tile) => {
            assert(text.subrange(1, 3) =~= id_text(tile_id(tile)));
            lemma_id_text_round_trip(tile, text, 1);
        },
        Action::Ron(tile) => {
            assert(text.subrange(1, 3) =~= id_text(tile_id(tile)));
            lemma_id_text_round_trip(tile, text, 1);
        },
        Action::Kan(kind) => {
            let tile = kind.spec_tile();
            assert(text.subrange(2, 4) =~= id_text(tile_id(tile)));
            lemma_id_text_round_trip(tile, text, 2);
        },
        Action::Chi(first, second, third) => {
            assert(text.subrange(1, 3) =~= id_text(tile_id(first)));
            assert(text.subrange(3, 5) =~= id_text(tile_id(second)));
            assert(text.subrange(5, 7) =~= id_text(tile_id(third)));
            lemma_id_text_round_trip(first, text, 1);
            lemma_id_text_round_trip(second, text, 3);
            lemma_id_text_round_trip(third, text, 5);
        },
        Action::Tsumo => {},
        Action::Pass => {},
    }
}

/// Adds the two digits of the id of a tile to a text.
fn append_id(text: String, tile: &Tile) -> (longer: String)
    requires
        tile.wf(),
    ensures
        longer@ == text@ + id_text(tile_id(*tile)),
{
    let id: usize = tile.to_id() as usize;
    proof {
        lemma_digit_text((id / 10) as nat);
        lemma_digit_text((id % 10) as nat);
    }
    let longer = text.concat(digit_str(id / 10)).concat(digit_str(id % 10));
    longer
}

/// The text of an action whose tiles are well formed.
pub fn serialize_action(action: &Action) -> (text: String)
    requires
        action_wf(*action),
    ensures
        text@ == action_text(*action),
{
    proof {
        reveal_strlit("D");
        reveal_strlit("C");
        reveal_strlit("P");
        reveal_strlit("Kc");
        reveal_strlit("Ka");
        reveal_strlit("Ko");
        reveal_strlit("R");
        reveal_strlit("T");
        reveal_strlit("N");
        reveal_strlit("-");
    }
    match action {
        Action::Discard(tile) => {
            let text = String::from_str("D");
            append_id(text, tile)
        },
        Action::Chi(first, second, third) => {
            let text = String::from_str("C");
            append_id(append_id(append_id(text, first), second), third)
        },
        Action::Pon(tile) => {
            let text = String::from_str("P");
            append_id(text, tile)
        },
        Action::Kan(KanType::Closed(tile)) => {
            let text = String::from_str("Kc");
            append_id(text, tile)
        },
        Action::Kan(KanType::Added(tile)) => {
            let text = String::from_str("Ka");
            append_id(text, tile)
        },
        Action::Kan(KanType::Open(tile)) => {
            let text = String::from_str("Ko");
            append_id(text, tile)
        },
        Action::Riichi(tile) => {
            let text = String::from_str("R");
            append_id(text, tile)
        },
        Action::Tsumo => {
            let text = String::from_str("T");
            text
        },
        Action::Ron(tile) => {
            let text = String::from_str("N");
            append_id(text, tile)
        },
        Action::Pass => {
            let text = String::from_str("-");
            text
        },
    }
}

/// The digit that a character stands for, or 10.
fn digit_of(c: char) -> (digit: u8)
    ensures
        digit == char_digit(c),
        digit <= 10,
{
    if c == '0' {
        0
    } else if c == '1' {
        1
    } else if c == '2' {
        2
    } else if c == '3' {
        3
    } else if c == '4' {
        4
    } else if c == '5' {
        5
    } else if c == '6' {
        6
    } else if c == '7' {
        7
    } else if c == '8' {
        8
    } else if c == '9' {
        9
    } else {
        10
    }
}

/// The tile whose id the two characters at `at` spell.
fn tile_at_place(text: &Vec<char>, at: usize) -> (tile: Option<Tile>)
    requires
        at <= text@.len(),
    ensures
        tile == tile_in(text@, at as int),
{
    if text.len() - at < 2 {
        return None;
    }
    let tens: u8 = digit_of(text[at]);
    let ones: u8 = digit_of(text[at + 1]);
    if tens >= 10 || ones >= 10 {
        return None;
    }
    Tile::from_id(10 * tens + ones)
}

/// Reads an action from its text; a text that spells no action is
/// refused with a message.
pub fn deserialize_action(data: &str) -> (read: Result<Action, String>)
    ensures
        match text_action(data@) {
            Some(action) => read == Ok::<Action, String>(action),
            None => read is Err,
        },
{
    let text: Vec<char> = chars_of(data);
    let length: usize = text.len();
    if length == 1 && text[0] == 'T' {
        return Ok(Action::Tsumo);
    }
    if length == 1 && text[0] == '-' {
        return Ok(Action::Pass);
    }
    if length == 3 {
        match tile_at_place(&text, 1) {
            Some(tile) => {
                let kind: char = text[0];
                if kind == 'D' {
                    return Ok(Action::Discard(tile));
                } else if kind == 'P' {
                    return Ok(Action::Pon(tile));
                } else if kind == 'R' {
                    return Ok(Action::Riichi(tile));
                } else if kind == 'N' {
                    return Ok(Action::Ron(tile));
                }
            },
            None => {},
        }
    }
    if length == 4 && text[0] == 'K' {
        match tile_at_place(&text, 2) {
            Some(tile) => {
                let kind: char = text[1];
                if kind == 'c' {
                    return Ok(Action::Kan(KanType::Closed(tile)));
                } else if kind == 'a' {
                    return Ok(Action::Kan(KanType::Added(tile)));
                } else if kind == 'o' {
                    return Ok(Action::Kan(KanType::Open(tile)));
                }
            },
            None => {},
        }
    }
    if length == 7 && text[0] == 'C' {
        match (tile_at_place(&text, 1), tile_at_place(&text, 3), tile_at_place(&text, 5)) {
            (Some(first), Some(second), Some(third)) => {
                return Ok(Action::Chi(first, second, third));
            },
            _ => {},
        }
    }
    Err(String::from_str("Unknown action text"))
}

} // verus!
