//! The dead wall: the tiles set apart at the end of the wall for
//! replacement draws and, in the Japanese variant, for the indicators of
//! the bonus tiles.

use vstd::prelude::*;
use crate::errors::{MajiangError, MajiangResult};
use crate::tile::Tile;

verus! {

/// How a dead wall is laid out.
#[derive(Debug, Clone, Copy, PartialEq, Eq, Structural)]
pub enum DeadWallConfig {
    /// Fourteen tiles, with the given numbers of indicators to turn.
    Riichi { dora_indicators: u8, uradora_indicators: u8 },
    /// Sixteen tiles, of which the given number replaces bonus tiles.
    MCR { replacement_count: u8 },
    /// Sixteen tiles, of which the given number replaces bonus tiles.
    Shanghai { replacement_count: u8 },
    /// No tiles.
    Absent,
}

impl Default for DeadWallConfig {
    fn default() -> (config: Self)
        ensures
            config == (DeadWallConfig::MCR { replacement_count: 8 }),
    {
        DeadWallConfig::MCR { replacement_count: 8 }
    }
}

/// The number of tiles that a dead wall takes from the wall.
pub open spec fn dead_wall_size(config: DeadWallConfig) -> nat {
    match config {
        DeadWallConfig::Riichi { .. } => 14,
        DeadWallConfig::MCR { .. } => 16,
        DeadWallConfig::Shanghai { .. } => 16,
        DeadWallConfig::Absent => 0,
    }
}

/// The dead wall.
#[derive(Debug, Clone)]
pub struct DeadWall {
    tiles: Vec<Tile>,
    config: DeadWallConfig,
    revealed_indicator_indices: Vec<usize>,
}

/// A dead wall as plain values.
pub struct DeadWallView {
    /// The tiles, the one drawn next last.
    pub tiles: Seq<Tile>,
    /// The layout.
    pub config: DeadWallConfig,
    /// The places of the indicators turned so far.
    pub revealed: Seq<usize>,
}

/// The dead wall has an indicator left to turn: its layout has
/// indicators, fewer are turned than it allows, and the place of the next
/// one, two after the last, holds a tile.
pub open spec fn can_turn(dead: DeadWallView) -> bool {
    dead.config matches DeadWallConfig::Riichi { dora_indicators, .. } && dead.revealed.len()
        < dora_indicators && 2 * dead.revealed.len() < dead.tiles.len()
}

impl DeadWallView {
    /// Every tile of the dead wall is well formed.
    pub open spec fn tiles_wf(self) -> bool {
        forall|i: int| 0 <= i < self.tiles.len() ==> (#[trigger] self.tiles[i]).wf()
    }

    /// The indicators turned so far, if each of their places still holds
    /// a tile.
    pub open spec fn indicators(self) -> Option<Seq<Tile>> {
        if forall|i: int|
            0 <= i < self.revealed.len() ==> (#[trigger] self.revealed[i]) < self.tiles.len() {
            Some(Seq::new(self.revealed.len(), |i: int| self.tiles[self.revealed[i] as int]))
        } else {
            None
        }
    }

    /// The hidden indicators, which lie under the open ones at the odd
    /// places, if each of their places still holds a tile.
    pub open spec fn hidden_indicators(self, count: nat) -> Option<Seq<Tile>> {
        if count == 0 || 2 * count - 1 < self.tiles.len() {
            Some(Seq::new(count, |i: int| self.tiles[2 * i + 1]))
        } else {
            None
        }
    }

    /// The tiles left for replacement draws.
    pub open spec fn replacements_left(self) -> nat {
        match self.config {
            DeadWallConfig::Absent => 0,
            DeadWallConfig::Riichi { .. } => if self.tiles.len() >= self.revealed.len() {
                (self.tiles.len() - self.revealed.len()) as nat
            } else {
                0
            },
            DeadWallConfig::MCR { replacement_count } => left_of(
                replacement_count as nat,
                self.tiles.len(),
            ),
            DeadWallConfig::Shanghai { replacement_count } => left_of(
                replacement_count as nat,
                self.tiles.len(),
            ),
        }
    }
}

/// What is left of `count` replacement tiles when a dead wall of sixteen
/// holds `held` tiles.
pub open spec fn left_of(count: nat, held: nat) -> nat {
    if held >= 16 {
        count
    } else if 16 - held >= count {
        0
    } else {
        (count - (16 - held)) as nat
    }
}

impl View for DeadWall {
    type V = DeadWallView;

    closed spec fn view(&self) -> DeadWallView {
        DeadWallView {
            tiles: self.tiles@,
            config: self.config,
            revealed: self.revealed_indicator_indices@,
        }
    }
}

impl DeadWall {
    /// Sets the dead wall apart from the end of the tiles: the last tile
    /// first. In the Japanese variant the first indicator is turned.
    /// With too few tiles nothing is taken.
    pub fn new(tiles: &mut Vec<Tile>, config: DeadWallConfig) -> (made: MajiangResult<Self>)
        ensures
            old(tiles)@.len() < dead_wall_size(config) ==> (made matches Err(
                MajiangError::NotEnoughTiles,
            ) && final(tiles)@ == old(tiles)@),
            old(tiles)@.len() >= dead_wall_size(config) ==> (made matches Ok(wall) && {
                &&& wall@.config == config
                &&& final(tiles)@ == old(tiles)@.take(
                    old(tiles)@.len() - dead_wall_size(config),
                )
                &&& wall@.tiles.reverse() == old(tiles)@.skip(
                    old(tiles)@.len() - dead_wall_size(config),
                )
                &&& wall@.revealed == if config is Riichi {
                    seq![0usize]
                } else {
                    Seq::<usize>::empty()
                }
            }),
    {
        let size: usize = match config {
            DeadWallConfig::Absent => 0,
            DeadWallConfig::Riichi { .. } => 14,
            DeadWallConfig::MCR { .. } => 16,
            DeadWallConfig::Shanghai { .. } => 16,
        };
        if tiles.len() < size {
            return Err(MajiangError::NotEnoughTiles);
        }
        let ghost start = tiles@;
        let mut dead_wall_tiles: Vec<Tile> = Vec::new();
        let mut taken: usize = 0;
        while taken < size
            invariant
                taken <= size,
                size <= start.len(),
                tiles@ == start.take(start.len() - taken),
                dead_wall_tiles@.len() == taken,
                forall|k: int|
                    0 <= k < taken ==> #[trigger] dead_wall_tiles@[k] == start[start.len() - 1 - k],
            decreases size - taken,
        {
            let tile: Tile = match tiles.pop() {
                Some(tile) => tile,
                None => Tile::Joker,
            };
            dead_wall_tiles.push(tile);
            taken = taken + 1;
        }
        let mut revealed: Vec<usize> = Vec::new();
        match config {
            DeadWallConfig::Riichi { .. } => {
                revealed.push(0);
            },
            _ => {},
        }
        Ok(DeadWall { tiles: dead_wall_tiles, config, revealed_indicator_indices: revealed })
    }

    /// The number of tiles left for replacement draws.
    pub fn remaining_replacement_tiles(&self) -> (left: usize)
        ensures
            left == self@.replacements_left(),
    {
        match self.config {
            DeadWallConfig::Absent => 0,
            DeadWallConfig::Riichi { .. } => {
                if self.tiles.len() >= self.revealed_indicator_indices.len() {
                    self.tiles.len() - self.revealed_indicator_indices.len()
                } else {
                    0
                }
            },
            DeadWallConfig::MCR { replacement_count } => remaining_of(
                replacement_count,
                self.tiles.len(),
            ),
            DeadWallConfig::Shanghai { replacement_count } => remaining_of(
                replacement_count,
                self.tiles.len(),
            ),
        }
    }

    /// Draws a replacement tile: the last tile of the dead wall. A dead
    /// wall without tiles has none to give, and a layout without a dead
    /// wall does not allow the draw.
    pub fn draw_replacement_tile(&mut self) -> (drawn: MajiangResult<Tile>)
        ensures
            final(self)@.config == old(self)@.config,
            final(self)@.revealed == old(self)@.revealed,
            old(self)@.config is Absent ==> (drawn matches Err(MajiangError::InvalidOperation(_))
                && final(self)@ == old(self)@),
            !(old(self)@.config is Absent) && old(self)@.tiles.len() == 0 ==> (drawn matches Err(
                MajiangError::NotEnoughTiles,
            ) && final(self)@ == old(self)@),
            !(old(self)@.config is Absent) && old(self)@.tiles.len() > 0 ==> drawn == Ok::<
                Tile,
                MajiangError,
            >(old(self)@.tiles.last()) && final(self)@.tiles == old(self)@.tiles.drop_last(),
    {
        match self.config {
            DeadWallConfig::Absent => {
                return Err(MajiangError::InvalidOperation(String::from_str("没有配置岭上牌区")));
            },
            _ => {},
        }
        match self.tiles.pop() {
            Some(tile) => Ok(tile),
            None => Err(MajiangError::NotEnoughTiles),
        }
    }

    /// The indicators turned so far. Only the Japanese layout has
    /// indicators; an indicator whose place holds no tile any more is an
    /// error.
    pub fn get_dora_indicators(&self) -> (found: MajiangResult<Vec<Tile>>)
        ensures
            match found {
                Ok(list) => self@.config is Riichi && self@.indicators() == Some(list@),
                Err(error) => error is InvalidOperation && (!(self@.config is Riichi)
                    || self@.indicators() is None),
            },
    {
        match self.config {
            DeadWallConfig::Riichi { .. } => {},
            _ => {
                return Err(MajiangError::InvalidOperation(String::from_str("该规则没有宝牌指示牌")));
            },
        }
        let mut indicators: Vec<Tile> = Vec::new();
        let mut i: usize = 0;
        while i < self.revealed_indicator_indices.len()
            invariant
                i <= self.revealed_indicator_indices@.len(),
                indicators@.len() == i,
                forall|k: int|
                    0 <= k < i ==> (#[trigger] self.revealed_indicator_indices@[k])
                        < self.tiles@.len(),
                forall|k: int|
                    0 <= k < i ==> #[trigger] indicators@[k]
                        == self.tiles@[self.revealed_indicator_indices@[k] as int],
            decreases self.revealed_indicator_indices@.len() - i,
        {
            let index: usize = self.revealed_indicator_indices[i];
            if index < self.tiles.len() {
                indicators.push(self.tiles[index]);
            } else {
                return Err(MajiangError::InvalidOperation(String::from_str("宝牌指示牌索引越界")));
            }
            i = i + 1;
        }
        Ok(indicators)
    }

    /// The hidden indicators, as many as the layout says. Only the
    /// Japanese layout has them; one whose place holds no tile any more
    /// is an error.
    pub fn get_uradora_indicators(&self) -> (found: MajiangResult<Vec<Tile>>)
        ensures
            match found {
                Ok(list) => self@.config matches DeadWallConfig::Riichi { uradora_indicators, .. }
                    && self@.hidden_indicators(uradora_indicators as nat) == Some(list@),
                Err(error) => error is InvalidOperation && (self@.config matches DeadWallConfig::Riichi {
                    uradora_indicators,
                    ..
                } ==> self@.hidden_indicators(uradora_indicators as nat) is None),
            },
    {
        let count: usize = match self.config {
            DeadWallConfig::Riichi { dora_indicators: _, uradora_indicators } => uradora_indicators as usize,
            _ => {
                return Err(MajiangError::InvalidOperation(String::from_str("该规则没有里宝牌指示牌")));
            },
        };
        let mut indicators: Vec<Tile> = Vec::new();
        let mut i: usize = 0;
        while i < count
            invariant
                i <= count,
                count <= 255,
                self.config matches DeadWallConfig::Riichi { uradora_indicators, .. }
                    && uradora_indicators == count,
                indicators@.len() == i,
                i > 0 ==> 2 * i - 1 < self.tiles@.len(),
                forall|k: int| 0 <= k < i ==> #[trigger] indicators@[k] == self.tiles@[2 * k + 1],
            decreases count - i,
        {
            let index: usize = i * 2 + 1;
            if index < self.tiles.len() {
                indicators.push(self.tiles[index]);
            } else {
                return Err(MajiangError::InvalidOperation(String::from_str("里宝牌指示牌索引越界")));
            }
            i = i + 1;
        }
        Ok(indicators)
    }

    /// Turns the next indicator, which lies two places after the last,
    /// and returns it. Only the Japanese layout has indicators; when all
    /// that the layout allows are turned, or the place holds no tile,
    /// nothing changes and the call is refused.
    pub fn reveal_next_dora_indicator(&mut self) -> (turned: MajiangResult<Tile>)
        ensures
            final(self)@.config == old(self)@.config,
            final(self)@.tiles == old(self)@.tiles,
            match turned {
                Ok(tile) => can_turn(old(self)@) && tile == old(self)@.tiles[2 * (old(
                    self,
                )@.revealed.len() as int)] && final(self)@.revealed == old(self)@.revealed.push(
                    (2 * old(self)@.revealed.len()) as usize,
                ),
                Err(error) => error is InvalidOperation && final(self)@ == old(self)@ && !can_turn(
                    old(self)@,
                ),
            },
    {
        let limit: usize = match self.config {
            DeadWallConfig::Riichi { dora_indicators, uradora_indicators: _ } => dora_indicators as usize,
            _ => {
                return Err(MajiangError::InvalidOperation(String::from_str("该规则没有宝牌指示牌")));
            },
        };
        let current_indicators: usize = self.revealed_indicator_indices.len();
        if current_indicators >= limit {
            return Err(
                MajiangError::InvalidOperation(String::from_str("已经翻开了所有宝牌指示牌")),
            );
        }
        let next_index: usize = current_indicators * 2;
        if next_index >= self.tiles.len() {
            return Err(MajiangError::InvalidOperation(String::from_str("宝牌指示牌索引越界")));
        }
        self.revealed_indicator_indices.push(next_index);
        Ok(self.tiles[next_index])
    }

    /// All the tiles of the dead wall, the one drawn next last.
    pub fn get_all_tiles(&self) -> (tiles: &Vec<Tile>)
        ensures
            tiles@ == self@.tiles,
    {
        &self.tiles
    }
}

/// What is left of `count` replacement tiles when a dead wall of sixteen
/// holds `held` tiles.
fn remaining_of(count: u8, held: usize) -> (left: usize)
    ensures
        left == left_of(count as nat, held as nat),
{
    let whole: usize = count as usize;
    if held >= 16 {
        return whole;
    }
    let tiles_taken: usize = 16 - held;
    if tiles_taken >= whole {
        0
    } else {
        whole - tiles_taken
    }
}

} // verus!
