//! The meld record and its parts.

use vstd::prelude::*;
use crate::errors::{MajiangError, MajiangResult};
use crate::meld::utils::{
    all_wf, chi_fault, contains_tile, copy_sources, copy_tiles, kan_fault, pon_fault, validate_chi,
    validate_kan, validate_pon,
};
use crate::text::{decimal_string, decimal_text};
use crate::tile::Tile;

verus! {

/// Where one tile of a meld came from.
#[derive(Debug, Clone, Copy, PartialEq, Eq, Structural)]
pub enum MeldSource {
    /// Drawn by the owner of the meld.
    SelfDrawn,
    /// Claimed from the discard of the player in the given seat.
    Player(u8),
}

/// The three ways in which four identical tiles are declared.
#[derive(Debug, Clone, Copy, PartialEq, Eq, Structural)]
pub enum KanType {
    /// Three concealed tiles and a claimed discard.
    Open,
    /// Four concealed tiles.
    Closed,
    /// A tile added to a triple that was claimed earlier.
    Added,
}

/// The kind of a meld.
#[derive(Debug, Clone, Copy, PartialEq, Eq, Structural)]
pub enum MeldType {
    /// A run of three.
    Chi,
    /// Three identical tiles.
    Pon,
    /// Four identical tiles.
    Kan(KanType),
}

/// A declared group: its tiles, its kind, and the provenance of each tile,
/// in the order of the tiles.
#[derive(Debug, Clone, PartialEq, Eq)]
pub struct Meld {
    pub tiles: Vec<Tile>,
    pub meld_type: MeldType,
    pub sources: Vec<MeldSource>,
}

/// A meld as plain values.
pub struct MeldView {
    pub tiles: Seq<Tile>,
    pub meld_type: MeldType,
    pub sources: Seq<MeldSource>,
}

impl MeldView {
    /// A meld is well formed when nothing is wrong with its parts.
    pub open spec fn wf(self) -> bool {
        meld_fault(self.tiles, self.meld_type, self.sources) is None
    }
}

/// A well-formed meld has as many tiles as its kind asks for, each of
/// them well formed and each with its provenance.
pub proof fn lemma_wf_meld(meld: MeldView)
    requires
        meld.wf(),
    ensures
        meld.tiles.len() == meld_size(meld.meld_type),
        meld.sources.len() == meld.tiles.len(),
        all_wf(meld.tiles),
{
}

impl View for Meld {
    type V = MeldView;

    open spec fn view(&self) -> MeldView {
        MeldView { tiles: self.tiles@, meld_type: self.meld_type, sources: self.sources@ }
    }
}

/// The melds of a list as plain values.
pub open spec fn meld_views(melds: Seq<Meld>) -> Seq<MeldView> {
    Seq::new(melds.len(), |i: int| melds[i]@)
}

/// The number of tiles of a meld of the given kind.
pub open spec fn meld_size(meld_type: MeldType) -> nat {
    match meld_type {
        MeldType::Chi => 3,
        MeldType::Pon => 3,
        MeldType::Kan(_) => 4,
    }
}

/// The name of a kind of quad.
pub open spec fn kan_type_text(kan_type: KanType) -> Seq<char> {
    match kan_type {
        KanType::Open => "明杠"@,
        KanType::Closed => "暗杠"@,
        KanType::Added => "加杠"@,
    }
}

/// The name of a kind of meld.
pub open spec fn meld_type_text(meld_type: MeldType) -> Seq<char> {
    match meld_type {
        MeldType::Chi => "吃"@,
        MeldType::Pon => "碰"@,
        MeldType::Kan(kan_type) => kan_type_text(kan_type),
    }
}

/// The complaint about a meld with the wrong number of tiles.
pub open spec fn count_text(meld_type: MeldType, given: nat) -> Seq<char> {
    meld_type_text(meld_type) + "副露需要"@ + decimal_text(meld_size(meld_type)) + "张牌，但提供了"@
        + decimal_text(given) + "张"@
}

/// What is wrong with a meld made of these parts: nothing, or a message.
/// The checks run in this order: one provenance per tile, the number of
/// tiles of the kind, then the rule of the kind.
pub open spec fn meld_fault(
    tiles: Seq<Tile>,
    meld_type: MeldType,
    sources: Seq<MeldSource>,
) -> Option<Seq<char>> {
    if tiles.len() != sources.len() {
        Some("牌和来源数量必须匹配"@)
    } else if tiles.len() != meld_size(meld_type) {
        Some(count_text(meld_type, tiles.len()))
    } else {
        match meld_type {
            MeldType::Chi => chi_fault(tiles),
            MeldType::Pon => pon_fault(tiles),
            MeldType::Kan(kan_type) => kan_fault(tiles, kan_type, sources),
        }
    }
}

/// The name of a kind of meld.
pub fn meld_type_to_str(meld_type: MeldType) -> (text: &'static str)
    ensures
        text@ == meld_type_text(meld_type),
{
    match meld_type {
        MeldType::Chi => "吃",
        MeldType::Pon => "碰",
        MeldType::Kan(KanType::Open) => "明杠",
        MeldType::Kan(KanType::Closed) => "暗杠",
        MeldType::Kan(KanType::Added) => "加杠",
    }
}

/// The name of a kind of quad.
pub fn kan_type_to_str(kan_type: KanType) -> (text: &'static str)
    ensures
        text@ == kan_type_text(kan_type),
{
    match kan_type {
        KanType::Open => "明杠",
        KanType::Closed => "暗杠",
        KanType::Added => "加杠",
    }
}

impl Meld {
    /// A meld is well formed when nothing is wrong with its parts.
    pub open spec fn wf(self) -> bool {
        self@.wf()
    }

    /// Builds a meld after checking it. On success the meld holds exactly
    /// the parts given; on failure the error is `InvalidMeld` with the
    /// message of `meld_fault`.
    pub fn new(tiles: Vec<Tile>, meld_type: MeldType, sources: Vec<MeldSource>) -> (made:
        MajiangResult<Self>)
        ensures
            match meld_fault(tiles@, meld_type, sources@) {
                None => made matches Ok(meld) && meld.tiles == tiles && meld.meld_type
                    == meld_type && meld.sources == sources && meld.wf(),
                Some(text) => made matches Err(MajiangError::InvalidMeld(message)) && message@
                    == text,
            },
    {
        if tiles.len() != sources.len() {
            return Err(MajiangError::InvalidMeld(String::from_str("牌和来源数量必须匹配")));
        }
        let expected: usize = match meld_type {
            MeldType::Chi => 3,
            MeldType::Pon => 3,
            MeldType::Kan(_) => 4,
        };
        if tiles.len() != expected {
            let message = String::from_str(meld_type_to_str(meld_type)).concat(
                "副露需要",
            ).concat(decimal_string(expected).as_str()).concat("张牌，但提供了").concat(
                decimal_string(tiles.len()).as_str(),
            ).concat("张");
            return Err(MajiangError::InvalidMeld(message));
        }
        let checked = match meld_type {
            MeldType::Chi => validate_chi(tiles.as_slice()),
            MeldType::Pon => validate_pon(tiles.as_slice()),
            MeldType::Kan(kan_type) => validate_kan(tiles.as_slice(), kan_type, sources.as_slice()),
        };
        match checked {
            Ok(_) => Ok(Meld { tiles, meld_type, sources }),
            Err(error) => Err(error),
        }
    }

    /// A run of the three tiles given, all drawn by the owner. Nothing is
    /// checked: `wf` tells whether the tiles are a run.
    pub fn new_chi(t1: Tile, t2: Tile, t3: Tile) -> (meld: Self)
        ensures
            meld.tiles@ == seq![t1, t2, t3],
            meld.meld_type == MeldType::Chi,
            meld.sources@ == seq![MeldSource::SelfDrawn, MeldSource::SelfDrawn, MeldSource::SelfDrawn],
    {
        let mut tiles: Vec<Tile> = Vec::new();
        tiles.push(t1);
        tiles.push(t2);
        tiles.push(t3);
        let mut sources: Vec<MeldSource> = Vec::new();
        sources.push(MeldSource::SelfDrawn);
        sources.push(MeldSource::SelfDrawn);
        sources.push(MeldSource::SelfDrawn);
        Meld { tiles, meld_type: MeldType::Chi, sources }
    }

    /// A triple of the tile given, all drawn by the owner. It is well
    /// formed if the tile is.
    pub fn new_pon(tile: Tile) -> (meld: Self)
        ensures
            meld.tiles@ == seq![tile, tile, tile],
            meld.meld_type == MeldType::Pon,
            meld.sources@ == seq![MeldSource::SelfDrawn, MeldSource::SelfDrawn, MeldSource::SelfDrawn],
            meld.wf() == tile.wf(),
    {
        let mut tiles: Vec<Tile> = Vec::new();
        tiles.push(tile);
        tiles.push(tile);
        tiles.push(tile);
        let mut sources: Vec<MeldSource> = Vec::new();
        sources.push(MeldSource::SelfDrawn);
        sources.push(MeldSource::SelfDrawn);
        sources.push(MeldSource::SelfDrawn);
        Meld { tiles, meld_type: MeldType::Pon, sources }
    }

    /// A concealed quad of the tile given. It is well formed if the tile
    /// is.
    pub fn new_kan(tile: Tile) -> (meld: Self)
        ensures
            meld.tiles@ == seq![tile, tile, tile, tile],
            meld.meld_type == MeldType::Kan(KanType::Closed),
            meld.sources@ == seq![
                MeldSource::SelfDrawn,
                MeldSource::SelfDrawn,
                MeldSource::SelfDrawn,
                MeldSource::SelfDrawn,
            ],
            meld.wf() == tile.wf(),
    {
        let mut tiles: Vec<Tile> = Vec::new();
        tiles.push(tile);
        tiles.push(tile);
        tiles.push(tile);
        tiles.push(tile);
        let mut sources: Vec<MeldSource> = Vec::new();
        sources.push(MeldSource::SelfDrawn);
        sources.push(MeldSource::SelfDrawn);
        sources.push(MeldSource::SelfDrawn);
        sources.push(MeldSource::SelfDrawn);
        Meld { tiles, meld_type: MeldType::Kan(KanType::Closed), sources }
    }

    /// The kind of the meld.
    pub fn get_type(&self) -> (meld_type: MeldType)
        ensures
            meld_type == self.meld_type,
    {
        self.meld_type
    }

    /// A copy of the tiles of the meld, in their order.
    pub fn tiles(&self) -> (tiles: Vec<Tile>)
        ensures
            tiles@ == self.tiles@,
    {
        copy_tiles(&self.tiles)
    }

    /// A copy of the meld.
    pub fn duplicate(&self) -> (copy: Self)
        ensures
            copy@ == self@,
    {
        Meld {
            tiles: copy_tiles(&self.tiles),
            meld_type: self.meld_type,
            sources: copy_sources(&self.sources),
        }
    }

    /// Tests `wf` at run time.
    pub fn is_well_formed(&self) -> (valid: bool)
        ensures
            valid == self.wf(),
    {
        if self.tiles.len() != self.sources.len() {
            return false;
        }
        let expected: usize = match self.meld_type {
            MeldType::Chi => 3,
            MeldType::Pon => 3,
            MeldType::Kan(_) => 4,
        };
        if self.tiles.len() != expected {
            return false;
        }
        let checked = match self.meld_type {
            MeldType::Chi => validate_chi(self.tiles.as_slice()),
            MeldType::Pon => validate_pon(self.tiles.as_slice()),
            MeldType::Kan(kan_type) => validate_kan(
                self.tiles.as_slice(),
                kan_type,
                self.sources.as_slice(),
            ),
        };
        checked.is_ok()
    }

    /// The tile a meld is known by: the second tile of a run, the first
    /// tile of a triple or a quad. The meld has to hold that tile.
    pub fn get_key_tile(&self) -> (tile: Tile)
        requires
            self.tiles@.len() > if self.meld_type is Chi {
                1int
            } else {
                0int
            },
        ensures
            tile == if self.meld_type is Chi {
                self.tiles@[1]
            } else {
                self.tiles@[0]
            },
    {
        match self.meld_type {
            MeldType::Chi => self.tiles[1],
            _ => self.tiles[0],
        }
    }

    /// Whether the tile is one of the tiles of the meld.
    pub fn contains(&self, tile: Tile) -> (found: bool)
        ensures
            found == self.tiles@.contains(tile),
    {
        contains_tile(self.tiles.as_slice(), tile)
    }

    /// Whether the meld lies face up: every meld but a concealed quad.
    pub fn is_open(&self) -> (open: bool)
        ensures
            open == (self.meld_type != MeldType::Kan(KanType::Closed)),
    {
        match self.meld_type {
            MeldType::Chi => true,
            MeldType::Pon => true,
            MeldType::Kan(KanType::Closed) => false,
            MeldType::Kan(_) => true,
        }
    }
}

} // verus!
