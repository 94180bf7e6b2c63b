//! Melds as text.

use vstd::prelude::*;
use crate::meld::types::{meld_views, KanType, Meld, MeldSource, MeldType, MeldView};
use crate::text::{decimal_string, decimal_text};
use crate::tile::display::{compact_display, compact_text};
use crate::tile::Tile;

verus! {

/// The word for a kind of meld.
pub open spec fn meld_word(meld_type: MeldType) -> Seq<char> {
    match meld_type {
        MeldType::Chi => "Chi"@,
        MeldType::Pon => "Pon"@,
        MeldType::Kan(KanType::Open) => "Kan"@,
        MeldType::Kan(KanType::Closed) => "ClosedKan"@,
        MeldType::Kan(KanType::Added) => "AddedKan"@,
    }
}

/// The compact texts of the first `count` tiles, one after the other.
pub open spec fn packed_text(tiles: Seq<Tile>, count: int) -> Seq<char>
    decreases count,
{
    if count <= 0 {
        Seq::empty()
    } else {
        packed_text(tiles, count - 1) + compact_text(tiles[count - 1])
    }
}

/// What one provenance adds to the text of a meld: the seat that the
/// tile was claimed from, or nothing for a tile of the owner's.
pub open spec fn claim_text(source: MeldSource) -> Seq<char> {
    match source {
        MeldSource::Player(seat) => " From:"@ + decimal_text(seat as nat),
        MeldSource::SelfDrawn => Seq::empty(),
    }
}

/// The seats that the first `count` tiles were claimed from, one after
/// the other.
pub open spec fn claims_text(sources: Seq<MeldSource>, count: int) -> Seq<char>
    decreases count,
{
    if count <= 0 {
        Seq::empty()
    } else {
        claims_text(sources, count - 1) + claim_text(sources[count - 1])
    }
}

/// The text of a meld: in brackets its word, a colon, its tiles and the
/// seats they were claimed from.
pub open spec fn meld_text(meld: MeldView) -> Seq<char> {
    "["@ + meld_word(meld.meld_type) + ":"@ + packed_text(meld.tiles, meld.tiles.len() as int)
        + claims_text(meld.sources, meld.sources.len() as int) + "]"@
}

/// The texts of the first `count` melds, with a space between them.
pub open spec fn melds_text(melds: Seq<MeldView>, count: int) -> Seq<char>
    decreases count,
{
    if count <= 0 {
        Seq::empty()
    } else if count == 1 {
        meld_text(melds[0])
    } else {
        melds_text(melds, count - 1) + " "@ + meld_text(melds[count - 1])
    }
}

/// The compact texts of the tiles, one after the other.
fn packed_display(tiles: &Vec<Tile>) -> (text: String)
    ensures
        text@ == packed_text(tiles@, tiles@.len() as int),
{
    let mut text: String = String::new();
    let mut i: usize = 0;
    while i < tiles.len()
        invariant
            i <= tiles@.len(),
            text@ == packed_text(tiles@, i as int),
        decreases tiles@.len() - i,
    {
        let one: String = compact_display(&tiles[i]);
        text.append(one.as_str());
        i = i + 1;
    }
    text
}

/// The seats that the tiles were claimed from, one after the other.
fn claims_display(sources: &Vec<MeldSource>) -> (text: String)
    ensures
        text@ == claims_text(sources@, sources@.len() as int),
{
    let mut text: String = String::new();
    let mut i: usize = 0;
    while i < sources.len()
        invariant
            i <= sources@.len(),
            text@ == claims_text(sources@, i as int),
        decreases sources@.len() - i,
    {
        match sources[i] {
            MeldSource::Player(seat) => {
                let number: String = decimal_string(seat as usize);
                let one: String = String::from_str(" From:").concat(number.as_str());
                text.append(one.as_str());
            },
            MeldSource::SelfDrawn => {
                assert(text@ + Seq::<char>::empty() == text@);
            },
        }
        i = i + 1;
    }
    text
}

impl Meld {
    /// The meld as text.
    pub fn to_string(&self) -> (text: String)
        ensures
            text@ == meld_text(self@),
    {
        let word: &'static str = match self.meld_type {
            MeldType::Chi => "Chi",
            MeldType::Pon => "Pon",
            MeldType::Kan(KanType::Open) => "Kan",
            MeldType::Kan(KanType::Closed) => "ClosedKan",
            MeldType::Kan(KanType::Added) => "AddedKan",
        };
        let tiles: String = packed_display(&self.tiles);
        let claims: String = claims_display(&self.sources);
        String::from_str("[").concat(word).concat(":").concat(tiles.as_str()).concat(
            claims.as_str(),
        ).concat("]")
    }
}

/// The texts of the melds, with a space between them.
pub fn melds_display(melds: &Vec<Meld>) -> (text: String)
    ensures
        text@ == melds_text(meld_views(melds@), melds@.len() as int),
{
    let mut text: String = String::new();
    let mut i: usize = 0;
    while i < melds.len()
        invariant
            i <= melds@.len(),
            text@ == melds_text(meld_views(melds@), i as int),
        decreases melds@.len() - i,
    {
        let one: String = melds[i].to_string();
        if i > 0 {
            text.append(" ");
        }
        text.append(one.as_str());
        i = i + 1;
    }
    text
}

} // verus!
