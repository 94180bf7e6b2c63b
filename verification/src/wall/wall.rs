//! The wall of a game.

use vstd::prelude::*;
use crate::errors::{MajiangError, MajiangResult};
use crate::tile::Tile;
use crate::wall::builder::{create_shuffled_tiles, tile_set, WallConfig};
use crate::wall::dead_wall::{can_turn, dead_wall_size, DeadWall, DeadWallConfig, DeadWallView};

verus! {

/// The wall: the tiles still to be drawn, the dead wall if there is one,
/// and the count of the tiles handed out.
#[derive(Debug, Clone)]
pub struct Wall {
    tiles: Vec<Tile>,
    next: usize,
    dead_wall: Option<DeadWall>,
    config: WallConfig,
    drawn_count: usize,
    game_started: bool,
}

/// A wall as plain values.
pub struct WallView {
    /// The tiles still to be drawn, the next one first.
    pub remaining: Seq<Tile>,
    /// The dead wall, if there is one.
    pub dead_wall: Option<DeadWallView>,
    /// The tiles the wall was made of.
    pub config: WallConfig,
    /// The number of tiles handed out.
    pub drawn_count: nat,
    /// Whether play has started.
    pub game_started: bool,
}

impl View for Wall {
    type V = WallView;

    closed spec fn view(&self) -> WallView {
        WallView {
            remaining: self.tiles@.skip(self.next as int),
            dead_wall: match self.dead_wall {
                Some(dead) => Some(dead@),
                None => None,
            },
            config: self.config,
            drawn_count: self.drawn_count as nat,
            game_started: self.game_started,
        }
    }
}

impl WallView {
    /// The number of tiles of the dead wall.
    pub open spec fn dead_tiles(self) -> nat {
        match self.dead_wall {
            Some(dead) => dead.tiles.len(),
            None => 0,
        }
    }
}

impl Wall {
    /// What every wall satisfies: the tiles handed out and the tiles left
    /// can be counted together.
    pub closed spec fn wf(&self) -> bool {
        &&& self.next <= self.tiles@.len()
        &&& self.drawn_count + (self.tiles@.len() - self.next) + self@.dead_tiles() <= usize::MAX
        &&& forall|i: int| 0 <= i < self.tiles@.len() ==> (#[trigger] self.tiles@[i]).wf()
        &&& self.dead_wall matches Some(dead) ==> dead@.tiles_wf()
    }

    /// The tiles of a well-formed wall are well formed.
    pub proof fn lemma_tiles_wf(&self)
        requires
            self.wf(),
        ensures
            forall|i: int|
                0 <= i < self@.remaining.len() ==> (#[trigger] self@.remaining[i]).wf(),
            self@.dead_wall matches Some(dead) ==> dead.tiles_wf(),
    {
    }

    /// A new wall: the tiles of the configuration, shuffled, with the
    /// dead wall, if one is asked for, set apart from their end. No tile
    /// is handed out and play has not started.
    pub fn new(wall_config: WallConfig, dead_wall_config: Option<DeadWallConfig>, seed: Option<u64>) -> (made:
        MajiangResult<Self>)
        ensures
            match made {
                Ok(wall) => {
                    &&& wall.wf()
                    &&& tile_set(wall_config) matches Some(set)
                    &&& wall@.config == wall_config
                    &&& wall@.drawn_count == 0
                    &&& !wall@.game_started
                    &&& match dead_wall_config {
                        Some(layout) => wall@.dead_wall matches Some(dead) && dead.config == layout
                            && dead.tiles.len() == dead_wall_size(layout) && (wall@.remaining
                            + dead.tiles.reverse()).to_multiset() == set.to_multiset(),
                        None => wall@.dead_wall is None && wall@.remaining.to_multiset()
                            == set.to_multiset(),
                    }
                    &&& wall@.remaining.len() + wall@.dead_tiles() == set.len()
                },
                Err(error) => match tile_set(wall_config) {
                    None => error is ConfigurationError,
                    Some(set) => error is NotEnoughTiles && (dead_wall_config matches Some(layout)
                        && set.len() < dead_wall_size(layout)),
                },
            },
    {
        let mut tiles: Vec<Tile> = match create_shuffled_tiles(wall_config, seed) {
            Ok(tiles) => tiles,
            Err(error) => {
                return Err(error);
            },
        };
        let ghost shuffled = tiles@;
        assert(shuffled.len() == tiles.len());
        let dead_wall: Option<DeadWall> = match dead_wall_config {
            Some(layout) => match DeadWall::new(&mut tiles, layout) {
                Ok(dead) => {
                    proof {
                        let cut = shuffled.len() - dead_wall_size(layout);
                        assert(shuffled.take(cut) + shuffled.skip(cut) =~= shuffled);
                        assert forall|i: int| 0 <= i < dead@.tiles.len() implies (#[trigger] dead@.tiles[i]).wf() by {
                            assert(dead@.tiles[i] == dead@.tiles.reverse()[dead@.tiles.len() - 1 - i]);
                        }
                    }
                    Some(dead)
                },
                Err(error) => {
                    return Err(error);
                },
            },
            None => None,
        };
        assert(tiles@.skip(0) =~= tiles@);
        let wall = Wall {
            tiles,
            next: 0,
            dead_wall,
            config: wall_config,
            drawn_count: 0,
            game_started: false,
        };
        Ok(wall)
    }

    /// The number of tiles still to be drawn.
    pub fn remaining_tiles(&self) -> (left: usize)
        requires
            self.wf(),
        ensures
            left == self@.remaining.len(),
    {
        self.tiles.len() - self.next
    }

    /// Whether no tile is left to be drawn.
    pub fn is_empty(&self) -> (empty: bool)
        requires
            self.wf(),
        ensures
            empty == (self@.remaining.len() == 0),
    {
        self.next >= self.tiles.len()
    }

    /// The number of tiles handed out.
    pub fn drawn_count(&self) -> (count: usize)
        ensures
            count == self@.drawn_count,
    {
        self.drawn_count
    }

    /// Draws the next tile. Before play has started the draw is refused;
    /// an empty wall has no tile to give.
    pub fn draw_tile(&mut self) -> (drawn: MajiangResult<Tile>)
        requires
            old(self).wf(),
        ensures
            final(self).wf(),
            !old(self)@.game_started ==> (drawn matches Err(MajiangError::InvalidOperation(_))
                && final(self)@ == old(self)@),
            old(self)@.game_started && old(self)@.remaining.len() == 0 ==> (drawn matches Err(
                MajiangError::NotEnoughTiles,
            ) && final(self)@ == old(self)@),
            drawn matches Ok(tile) ==> tile.wf(),
            old(self)@.game_started && old(self)@.remaining.len() > 0 ==> drawn == Ok::<
                Tile,
                MajiangError,
            >(old(self)@.remaining[0]) && final(self)@ == (WallView {
                remaining: old(self)@.remaining.skip(1),
                drawn_count: old(self)@.drawn_count + 1,
                ..old(self)@
            }),
    {
        if !self.game_started {
            return Err(MajiangError::InvalidOperation(String::from_str("游戏尚未开始，不能摸牌")));
        }
        if self.next >= self.tiles.len() {
            return Err(MajiangError::NotEnoughTiles);
        }
        let tile: Tile = self.tiles[self.next];
        self.next = self.next + 1;
        self.drawn_count = self.drawn_count + 1;
        assert(self.tiles@.skip(self.next as int) =~= old(self).tiles@.skip(
            old(self).next as int,
        ).skip(1));
        Ok(tile)
    }

    /// Hands out the first `count` tiles. Once play has started the deal
    /// is refused; a wall with fewer tiles gives none.
    pub fn deal_initial_hand(&mut self, count: usize) -> (dealt: MajiangResult<Vec<Tile>>)
        requires
            old(self).wf(),
        ensures
            final(self).wf(),
            old(self)@.game_started ==> (dealt matches Err(MajiangError::InvalidOperation(_))
                && final(self)@ == old(self)@),
            !old(self)@.game_started && old(self)@.remaining.len() < count ==> (dealt matches Err(
                MajiangError::NotEnoughTiles,
            ) && final(self)@ == old(self)@),
            dealt matches Ok(hand) ==> forall|i: int|
                0 <= i < hand@.len() ==> (#[trigger] hand@[i]).wf(),
            !old(self)@.game_started && old(self)@.remaining.len() >= count ==> (
            dealt matches Ok(hand) && hand@ == old(self)@.remaining.take(count as int)) && final(self)@ == (WallView {
                remaining: old(self)@.remaining.skip(count as int),
                drawn_count: old(self)@.drawn_count + count as nat,
                ..old(self)@
            }),
    {
        if self.game_started {
            return Err(
                MajiangError::InvalidOperation(String::from_str("游戏已经开始，不能发初始手牌")),
            );
        }
        if self.tiles.len() - self.next < count {
            return Err(MajiangError::NotEnoughTiles);
        }
        let ghost start = self@.remaining;
        let total: usize = self.tiles.len();
        let mut hand: Vec<Tile> = Vec::new();
        let mut i: usize = 0;
        while i < count
            invariant
                i <= count,
                total == self.tiles@.len(),
                self.wf(),
                start == old(self).tiles@.skip(old(self).next as int),
                old(self).wf(),
                old(self).tiles@.len() - old(self).next >= count,
                self.tiles@ == old(self).tiles@,
                self.next == old(self).next + i,
                self.drawn_count == old(self).drawn_count + i,
                self.dead_wall == old(self).dead_wall,
                self.config == old(self).config,
                self.game_started == old(self).game_started,
                hand@ == start.take(i as int),
            decreases count - i,
        {
            let tile: Tile = self.tiles[self.next];
            self.next = self.next + 1;
            self.drawn_count = self.drawn_count + 1;
            hand.push(tile);
            i = i + 1;
        }
        assert(self.tiles@.skip(self.next as int) =~= start.skip(count as int));
        Ok(hand)
    }

    /// Draws a replacement tile from the dead wall. Before play has
    /// started, or without a dead wall, the draw is refused.
    pub fn draw_replacement_tile(&mut self) -> (drawn: MajiangResult<Tile>)
        requires
            old(self).wf(),
        ensures
            final(self).wf(),
            final(self)@.remaining == old(self)@.remaining,
            final(self)@.config == old(self)@.config,
            final(self)@.game_started == old(self)@.game_started,
            match drawn {
                Ok(tile) => tile.wf() && old(self)@.game_started && (old(self)@.dead_wall matches Some(dead)
                    && !(dead.config is Absent) && dead.tiles.len() > 0 && tile
                    == dead.tiles.last() && final(self)@.dead_wall == Some(
                    DeadWallView { tiles: dead.tiles.drop_last(), ..dead },
                )) && final(self)@.drawn_count == old(self)@.drawn_count + 1,
                Err(error) => final(self)@ == old(self)@ && if !old(self)@.game_started {
                    error is InvalidOperation
                } else {
                    match old(self)@.dead_wall {
                        None => error is InvalidOperation,
                        Some(dead) => if dead.config is Absent {
                            error is InvalidOperation
                        } else {
                            error is NotEnoughTiles && dead.tiles.len() == 0
                        },
                    }
                },
            },
    {
        if !self.game_started {
            return Err(MajiangError::InvalidOperation(String::from_str("游戏尚未开始，不能摸补牌")));
        }
        let mut dead: DeadWall = match self.dead_wall.take() {
            Some(dead) => dead,
            None => {
                return Err(MajiangError::InvalidOperation(String::from_str("该规则没有岭上牌区")));
            },
        };
        let drawn = dead.draw_replacement_tile();
        self.dead_wall = Some(dead);
        match drawn {
            Ok(tile) => {
                self.drawn_count = self.drawn_count + 1;
                Ok(tile)
            },
            Err(error) => Err(error),
        }
    }

    /// Starts play: from now on tiles are drawn, not dealt.
    pub fn start_game(&mut self)
        requires
            old(self).wf(),
        ensures
            final(self).wf(),
            final(self)@ == (WallView { game_started: true, ..old(self)@ }),
    {
        self.game_started = true;
    }

    /// The indicators turned so far; refused without a dead wall that has
    /// indicators.
    pub fn get_dora_indicators(&self) -> (found: MajiangResult<Vec<Tile>>)
        ensures
            match found {
                Ok(list) => self@.dead_wall matches Some(dead) && dead.config is Riichi
                    && dead.indicators() == Some(list@),
                Err(error) => error is InvalidOperation && !(self@.dead_wall matches Some(dead)
                    && dead.config is Riichi && dead.indicators() is Some),
            },
    {
        match &self.dead_wall {
            Some(dead_wall) => dead_wall.get_dora_indicators(),
            None => Err(MajiangError::InvalidOperation(String::from_str("该规则没有岭上牌区"))),
        }
    }

    /// The hidden indicators; refused without a dead wall that has
    /// indicators.
    pub fn get_uradora_indicators(&self) -> (found: MajiangResult<Vec<Tile>>)
        ensures
            match found {
                Ok(list) => self@.dead_wall matches Some(dead)
                    && dead.config matches DeadWallConfig::Riichi { uradora_indicators, .. }
                    && dead.hidden_indicators(uradora_indicators as nat) == Some(list@),
                Err(error) => error is InvalidOperation && !(self@.dead_wall matches Some(dead) && (
                dead.config matches DeadWallConfig::Riichi { uradora_indicators, .. }
                    && dead.hidden_indicators(uradora_indicators as nat) is Some)),
            },
    {
        match &self.dead_wall {
            Some(dead_wall) => dead_wall.get_uradora_indicators(),
            None => Err(MajiangError::InvalidOperation(String::from_str("该规则没有岭上牌区"))),
        }
    }

    /// Turns the next indicator and returns it; refused without a dead
    /// wall that has an indicator left to turn.
    pub fn reveal_next_dora_indicator(&mut self) -> (turned: MajiangResult<Tile>)
        requires
            old(self).wf(),
        ensures
            final(self).wf(),
            final(self)@.remaining == old(self)@.remaining,
            final(self)@.drawn_count == old(self)@.drawn_count,
            final(self)@.config == old(self)@.config,
            final(self)@.game_started == old(self)@.game_started,
            match turned {
                Ok(tile) => old(self)@.dead_wall matches Some(dead) && can_turn(dead) && tile
                    == dead.tiles[2 * (dead.revealed.len() as int)] && final(self)@.dead_wall
                    == Some(
                    DeadWallView {
                        revealed: dead.revealed.push((2 * dead.revealed.len()) as usize),
                        ..dead
                    },
                ),
                Err(error) => error is InvalidOperation && final(self)@ == old(self)@ && !(old(
                    self,
                )@.dead_wall matches Some(dead) && can_turn(dead)),
            },
    {
        let mut dead: DeadWall = match self.dead_wall.take() {
            Some(dead) => dead,
            None => {
                return Err(MajiangError::InvalidOperation(String::from_str("该规则没有岭上牌区")));
            },
        };
        let turned = dead.reveal_next_dora_indicator();
        self.dead_wall = Some(dead);
        turned
    }

    /// The dead wall, if there is one.
    pub fn dead_wall(&self) -> (dead: Option<&DeadWall>)
        ensures
            match dead {
                Some(wall) => self@.dead_wall == Some(wall@),
                None => self@.dead_wall is None,
            },
    {
        self.dead_wall.as_ref()
    }

    /// The dead wall, to be changed in place, if there is one. Nothing else
    /// of the wall changes, and the wall stays well formed as long as the
    /// dead wall gains no tile and its tiles stay well formed.
    pub fn dead_wall_mut(&mut self) -> (dead: Option<&mut DeadWall>)
        requires
            old(self).wf(),
        ensures
            match dead {
                Some(wall) => old(self)@.dead_wall == Some(wall@) && final(self)@ == (WallView {
                    dead_wall: Some(final(wall)@),
                    ..old(self)@
                }) && (final(wall)@.tiles_wf() && final(wall)@.tiles.len() <= wall@.tiles.len()
                    ==> final(self).wf()),
                None => old(self)@.dead_wall is None && final(self)@ == old(self)@ && final(self).wf(),
            },
    {
        self.dead_wall.as_mut()
    }

    /// The configuration the wall was made with.
    pub fn config(&self) -> (config: WallConfig)
        ensures
            config == self@.config,
    {
        self.config
    }

    /// The tiles still to be drawn, the next one first.
    pub fn get_all_wall_tiles(&self) -> (tiles: Vec<Tile>)
        requires
            self.wf(),
        ensures
            tiles@ == self@.remaining,
    {
        let mut tiles: Vec<Tile> = Vec::new();
        let mut i: usize = self.next;
        while i < self.tiles.len()
            invariant
                self.next <= i <= self.tiles@.len(),
                tiles@ == self.tiles@.subrange(self.next as int, i as int),
            decreases self.tiles@.len() - i,
        {
            tiles.push(self.tiles[i]);
            i = i + 1;
        }
        tiles
    }
}

} // verus!
