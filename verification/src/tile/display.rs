//! Text forms of tiles: the default names, a compact notation, pictographs
//! and a plain framed form, with optional terminal colours, and a grid
//! that lays a list of tiles out in rows.

use vstd::prelude::*;
use crate::text::{decimal_string, decimal_text};
use crate::tile::types::{Dragon, Flower, Suit, Tile, Wind};

verus! {

/// How a tile is written.
#[derive(Debug, Clone, Copy, PartialEq, Eq, Structural)]
pub enum DisplayStyle {
    /// The name of the tile: 1万, 东.
    Default,
    /// Rank and a letter for the suit: 1m, E.
    Compact,
    /// One pictograph.
    Unicode,
    /// The compact form between bars: |1m|.
    Ascii,
}

/// Whether a tile is written in colour.
#[derive(Debug, Clone, Copy, PartialEq, Eq, Structural)]
pub enum ColorStyle {
    /// No colour.
    Plain,
    /// Terminal escape sequences.
    Ansi,
}

/// The character of a suit in the default style.
pub open spec fn suit_text(suit: Suit) -> Seq<char> {
    match suit {
        Suit::Character => "万"@,
        Suit::Dot => "筒"@,
        Suit::Bamboo => "条"@,
    }
}

/// The letter of a suit in the compact style.
pub open spec fn suit_letter(suit: Suit) -> Seq<char> {
    match suit {
        Suit::Character => "m"@,
        Suit::Dot => "p"@,
        Suit::Bamboo => "s"@,
    }
}

/// The character of a wind in the default style.
pub open spec fn wind_text(wind: Wind) -> Seq<char> {
    match wind {
        Wind::East => "东"@,
        Wind::South => "南"@,
        Wind::West => "西"@,
        Wind::North => "北"@,
    }
}

/// The letter of a wind in the compact style.
pub open spec fn wind_letter(wind: Wind) -> Seq<char> {
    match wind {
        Wind::East => "E"@,
        Wind::South => "S"@,
        Wind::West => "W"@,
        Wind::North => "N"@,
    }
}

/// The character of a dragon in the default style.
pub open spec fn dragon_text(dragon: Dragon) -> Seq<char> {
    match dragon {
        Dragon::White => "白"@,
        Dragon::Green => "发"@,
        Dragon::Red => "中"@,
    }
}

/// The letter of a dragon in the compact style.
pub open spec fn dragon_letter(dragon: Dragon) -> Seq<char> {
    match dragon {
        Dragon::White => "W"@,
        Dragon::Green => "G"@,
        Dragon::Red => "R"@,
    }
}

/// The character of a bonus tile in the default style.
pub open spec fn flower_text(flower: Flower) -> Seq<char> {
    match flower {
        Flower::Spring => "春"@,
        Flower::Summer => "夏"@,
        Flower::Autumn => "秋"@,
        Flower::Winter => "冬"@,
        Flower::Plum => "梅"@,
        Flower::Orchid => "兰"@,
        Flower::Bamboo => "竹"@,
        Flower::Chrysanthemum => "菊"@,
    }
}

/// The notation of a bonus tile in the compact style.
pub open spec fn flower_letter(flower: Flower) -> Seq<char> {
    match flower {
        Flower::Spring => "F1"@,
        Flower::Summer => "F2"@,
        Flower::Autumn => "F3"@,
        Flower::Winter => "F4"@,
        Flower::Plum => "F5"@,
        Flower::Orchid => "F6"@,
        Flower::Bamboo => "F7"@,
        Flower::Chrysanthemum => "F8"@,
    }
}

/// The default text of a tile: the rank and the suit, or the name.
pub open spec fn default_text(tile: Tile) -> Seq<char> {
    match tile {
        Tile::Suit(suit, rank) => decimal_text(rank as nat) + suit_text(suit),
        Tile::Wind(wind) => wind_text(wind),
        Tile::Dragon(dragon) => dragon_text(dragon),
        Tile::Flower(flower) => flower_text(flower),
        Tile::Joker => "百搭"@,
    }
}

/// The compact text of a tile.
pub open spec fn compact_text(tile: Tile) -> Seq<char> {
    match tile {
        Tile::Suit(suit, rank) => decimal_text(rank as nat) + suit_letter(suit),
        Tile::Wind(wind) => wind_letter(wind),
        Tile::Dragon(dragon) => dragon_letter(dragon),
        Tile::Flower(flower) => flower_letter(flower),
        Tile::Joker => "J"@,
    }
}

/// The pictograph of a character tile of a rank from 1 to 9.
pub open spec fn character_glyph(rank: int) -> Seq<char> {
    if rank == 1 {
        "🀇"@
    } else if rank == 2 {
        "🀈"@
    } else if rank == 3 {
        "🀉"@
    } else if rank == 4 {
        "🀊"@
    } else if rank == 5 {
        "🀋"@
    } else if rank == 6 {
        "🀌"@
    } else if rank == 7 {
        "🀍"@
    } else if rank == 8 {
        "🀎"@
    } else {
        "🀏"@
    }
}

/// The pictograph of a dot tile of a rank from 1 to 9.
pub open spec fn dot_glyph(rank: int) -> Seq<char> {
    if rank == 1 {
        "🀙"@
    } else if rank == 2 {
        "🀚"@
    } else if rank == 3 {
        "🀛"@
    } else if rank == 4 {
        "🀜"@
    } else if rank == 5 {
        "🀝"@
    } else if rank == 6 {
        "🀞"@
    } else if rank == 7 {
        "🀟"@
    } else if rank == 8 {
        "🀠"@
    } else {
        "🀡"@
    }
}

/// The pictograph of a bamboo tile of a rank from 1 to 9.
pub open spec fn bamboo_glyph(rank: int) -> Seq<char> {
    if rank == 1 {
        "🀐"@
    } else if rank == 2 {
        "🀑"@
    } else if rank == 3 {
        "🀒"@
    } else if rank == 4 {
        "🀓"@
    } else if rank == 5 {
        "🀔"@
    } else if rank == 6 {
        "🀕"@
    } else if rank == 7 {
        "🀖"@
    } else if rank == 8 {
        "🀗"@
    } else {
        "🀘"@
    }
}

/// The pictograph of a tile; a question mark for a numbered tile whose
/// rank is not from 1 to 9.
pub open spec fn unicode_text(tile: Tile) -> Seq<char> {
    match tile {
        Tile::Suit(suit, rank) => if 1 <= rank <= 9 {
            match suit {
                Suit::Character => character_glyph(rank as int),
                Suit::Dot => dot_glyph(rank as int),
                Suit::Bamboo => bamboo_glyph(rank as int),
            }
        } else {
            "?"@
        },
        Tile::Wind(wind) => match wind {
            Wind::East => "🀀"@,
            Wind::South => "🀁"@,
            Wind::West => "🀂"@,
            Wind::North => "🀃"@,
        },
        Tile::Dragon(dragon) => match dragon {
            Dragon::White => "🀆"@,
            Dragon::Green => "🀅"@,
            Dragon::Red => "🀄"@,
        },
        Tile::Flower(_) => "🎴"@,
        Tile::Joker => "🃟"@,
    }
}

/// The framed text of a tile: the compact text between bars.
pub open spec fn ascii_text(tile: Tile) -> Seq<char> {
    "|"@ + compact_text(tile) + "|"@
}

/// The text of a tile in a style.
pub open spec fn tile_text(tile: Tile, style: DisplayStyle) -> Seq<char> {
    match style {
        DisplayStyle::Default => default_text(tile),
        DisplayStyle::Compact => compact_text(tile),
        DisplayStyle::Unicode => unicode_text(tile),
        DisplayStyle::Ascii => ascii_text(tile),
    }
}

/// The escape sequence that starts the colour of a tile.
pub open spec fn color_prefix(tile: Tile) -> Seq<char> {
    match tile {
        Tile::Suit(Suit::Character, _) => "\x1b[31m"@,
        Tile::Suit(Suit::Dot, _) => "\x1b[32m"@,
        Tile::Suit(Suit::Bamboo, _) => "\x1b[34m"@,
        Tile::Wind(_) => "\x1b[36m"@,
        Tile::Dragon(_) => "\x1b[35m"@,
        Tile::Flower(_) => "\x1b[33m"@,
        Tile::Joker => "\x1b[1;37m"@,
    }
}

/// The text of a tile in a style, in colour if asked for: the text
/// between the colour of the tile and the sequence that ends it.
pub open spec fn colored_text(tile: Tile, style: DisplayStyle, color_style: ColorStyle) -> Seq<
    char,
> {
    match color_style {
        ColorStyle::Plain => tile_text(tile, style),
        ColorStyle::Ansi => color_prefix(tile) + tile_text(tile, style) + "\x1b[0m"@,
    }
}

/// The texts of the first `count` tiles, with a space between them.
pub open spec fn joined_text(
    tiles: Seq<Tile>,
    style: DisplayStyle,
    color_style: ColorStyle,
    count: int,
) -> Seq<char>
    decreases count,
{
    if count <= 0 {
        Seq::empty()
    } else if count == 1 {
        colored_text(tiles[0], style, color_style)
    } else {
        joined_text(tiles, style, color_style, count - 1) + " "@ + colored_text(
            tiles[count - 1],
            style,
            color_style,
        )
    }
}

/// The texts of the first `count` tiles in rows of `columns`: a space
/// between the tiles of a row, a line break between rows.
pub open spec fn grid_text(
    tiles: Seq<Tile>,
    columns: int,
    style: DisplayStyle,
    color_style: ColorStyle,
    count: int,
) -> Seq<char>
    decreases count,
{
    if count <= 0 {
        Seq::empty()
    } else if count == 1 {
        colored_text(tiles[0], style, color_style)
    } else {
        grid_text(tiles, columns, style, color_style, count - 1) + if (count - 1) % columns == 0 {
            "\n"@
        } else {
            " "@
        } + colored_text(tiles[count - 1], style, color_style)
    }
}

/// The letter of a suit.
fn suit_letter_str(suit: Suit) -> (text: &'static str)
    ensures
        text@ == suit_letter(suit),
{
    match suit {
        Suit::Character => "m",
        Suit::Dot => "p",
        Suit::Bamboo => "s",
    }
}

/// The compact text of a tile.
pub fn compact_display(tile: &Tile) -> (text: String)
    ensures
        text@ == compact_text(*tile),
{
    match tile {
        Tile::Suit(suit, n) => decimal_string(*n as usize).concat(suit_letter_str(*suit)),
        Tile::Wind(Wind::East) => String::from_str("E"),
        Tile::Wind(Wind::South) => String::from_str("S"),
        Tile::Wind(Wind::West) => String::from_str("W"),
        Tile::Wind(Wind::North) => String::from_str("N"),
        Tile::Dragon(Dragon::White) => String::from_str("W"),
        Tile::Dragon(Dragon::Green) => String::from_str("G"),
        Tile::Dragon(Dragon::Red) => String::from_str("R"),
        Tile::Flower(Flower::Spring) => String::from_str("F1"),
        Tile::Flower(Flower::Summer) => String::from_str("F2"),
        Tile::Flower(Flower::Autumn) => String::from_str("F3"),
        Tile::Flower(Flower::Winter) => String::from_str("F4"),
        Tile::Flower(Flower::Plum) => String::from_str("F5"),
        Tile::Flower(Flower::Orchid) => String::from_str("F6"),
        Tile::Flower(Flower::Bamboo) => String::from_str("F7"),
        Tile::Flower(Flower::Chrysanthemum) => String::from_str("F8"),
        Tile::Joker => String::from_str("J"),
    }
}

/// The pictograph of a character tile.
fn character_glyph_str(rank: u8) -> (text: &'static str)
    ensures
        text@ == character_glyph(rank as int),
{
    if rank == 1 {
        "🀇"
    } else if rank == 2 {
        "🀈"
    } else if rank == 3 {
        "🀉"
    } else if rank == 4 {
        "🀊"
    } else if rank == 5 {
        "🀋"
    } else if rank == 6 {
        "🀌"
    } else if rank == 7 {
        "🀍"
    } else if rank == 8 {
        "🀎"
    } else {
        "🀏"
    }
}

/// The pictograph of a dot tile.
fn dot_glyph_str(rank: u8) -> (text: &'static str)
    ensures
        text@ == dot_glyph(rank as int),
{
    if rank == 1 {
        "🀙"
    } else if rank == 2 {
        "🀚"
    } else if rank == 3 {
        "🀛"
    } else if rank == 4 {
        "🀜"
    } else if rank == 5 {
        "🀝"
    } else if rank == 6 {
        "🀞"
    } else if rank == 7 {
        "🀟"
    } else if rank == 8 {
        "🀠"
    } else {
        "🀡"
    }
}

/// The pictograph of a bamboo tile.
fn bamboo_glyph_str(rank: u8) -> (text: &'static str)
    ensures
        text@ == bamboo_glyph(rank as int),
{
    if rank == 1 {
        "🀐"
    } else if rank == 2 {
        "🀑"
    } else if rank == 3 {
        "🀒"
    } else if rank == 4 {
        "🀓"
    } else if rank == 5 {
        "🀔"
    } else if rank == 6 {
        "🀕"
    } else if rank == 7 {
        "🀖"
    } else if rank == 8 {
        "🀗"
    } else {
        "🀘"
    }
}

/// The pictograph of a tile.
pub fn unicode_display(tile: &Tile) -> (text: String)
    ensures
        text@ == unicode_text(*tile),
{
    match tile {
        Tile::Suit(suit, n) => {
            if 1 <= *n && *n <= 9 {
                match suit {
                    Suit::Character => String::from_str(character_glyph_str(*n)),
                    Suit::Dot => String::from_str(dot_glyph_str(*n)),
                    Suit::Bamboo => String::from_str(bamboo_glyph_str(*n)),
                }
            } else {
                String::from_str("?")
            }
        },
        Tile::Wind(Wind::East) => String::from_str("🀀"),
        Tile::Wind(Wind::South) => String::from_str("🀁"),
        Tile::Wind(Wind::West) => String::from_str("🀂"),
        Tile::Wind(Wind::North) => String::from_str("🀃"),
        Tile::Dragon(Dragon::White) => String::from_str("🀆"),
        Tile::Dragon(Dragon::Green) => String::from_str("🀅"),
        Tile::Dragon(Dragon::Red) => String::from_str("🀄"),
        Tile::Flower(_) => String::from_str("🎴"),
        Tile::Joker => String::from_str("🃟"),
    }
}

/// The framed text of a tile.
pub fn ascii_display(tile: &Tile) -> (text: String)
    ensures
        text@ == ascii_text(*tile),
{
    let inner: String = compact_display(tile);
    String::from_str("|").concat(inner.as_str()).concat("|")
}

impl Tile {
    /// The default text of the tile.
    pub fn to_string(&self) -> (text: String)
        ensures
            text@ == default_text(*self),
    {
        match self {
            Tile::Suit(suit, n) => {
                let letter: &'static str = match suit {
                    Suit::Character => "万",
                    Suit::Dot => "筒",
                    Suit::Bamboo => "条",
                };
                decimal_string(*n as usize).concat(letter)
            },
            Tile::Wind(Wind::East) => String::from_str("东"),
            Tile::Wind(Wind::South) => String::from_str("南"),
            Tile::Wind(Wind::West) => String::from_str("西"),
            Tile::Wind(Wind::North) => String::from_str("北"),
            Tile::Dragon(Dragon::White) => String::from_str("白"),
            Tile::Dragon(Dragon::Green) => String::from_str("发"),
            Tile::Dragon(Dragon::Red) => String::from_str("中"),
            Tile::Flower(Flower::Spring) => String::from_str("春"),
            Tile::Flower(Flower::Summer) => String::from_str("夏"),
            Tile::Flower(Flower::Autumn) => String::from_str("秋"),
            Tile::Flower(Flower::Winter) => String::from_str("冬"),
            Tile::Flower(Flower::Plum) => String::from_str("梅"),
            Tile::Flower(Flower::Orchid) => String::from_str("兰"),
            Tile::Flower(Flower::Bamboo) => String::from_str("竹"),
            Tile::Flower(Flower::Chrysanthemum) => String::from_str("菊"),
            Tile::Joker => String::from_str("百搭"),
        }
    }
}

/// The text of a tile in a style.
pub fn styled_display(tile: &Tile, style: DisplayStyle) -> (text: String)
    ensures
        text@ == tile_text(*tile, style),
{
    match style {
        DisplayStyle::Default => tile.to_string(),
        DisplayStyle::Compact => compact_display(tile),
        DisplayStyle::Unicode => unicode_display(tile),
        DisplayStyle::Ascii => ascii_display(tile),
    }
}

/// The text of a tile in a style and, if asked for, in colour.
pub fn colored_display(tile: &Tile, style: DisplayStyle, color_style: ColorStyle) -> (text: String)
    ensures
        text@ == colored_text(*tile, style, color_style),
{
    let plain: String = styled_display(tile, style);
    match color_style {
        ColorStyle::Plain => plain,
        ColorStyle::Ansi => {
            let prefix: &'static str = match tile {
                Tile::Suit(Suit::Character, _) => "\x1b[31m",
                Tile::Suit(Suit::Dot, _) => "\x1b[32m",
                Tile::Suit(Suit::Bamboo, _) => "\x1b[34m",
                Tile::Wind(_) => "\x1b[36m",
                Tile::Dragon(_) => "\x1b[35m",
                Tile::Flower(_) => "\x1b[33m",
                Tile::Joker => "\x1b[1;37m",
            };
            String::from_str(prefix).concat(plain.as_str()).concat("\x1b[0m")
        },
    }
}

/// The texts of the tiles with a space between them.
pub fn joined_display(tiles: &[Tile], style: DisplayStyle, color_style: ColorStyle) -> (text:
    String)
    ensures
        text@ == joined_text(tiles@, style, color_style, tiles@.len() as int),
{
    let mut text: String = String::new();
    let mut i: usize = 0;
    while i < tiles.len()
        invariant
            i <= tiles@.len(),
            text@ == joined_text(tiles@, style, color_style, i as int),
        decreases tiles@.len() - i,
    {
        let one: String = colored_display(&tiles[i], style, color_style);
        if i > 0 {
            text.append(" ");
        }
        text.append(one.as_str());
        i = i + 1;
    }
    text
}

/// Writing tiles as text.
pub trait TileDisplay {
    /// The text of the tile in the style.
    fn display(&self, style: DisplayStyle) -> String;

    /// The texts of the tiles in the style, with a space between them.
    fn display_tiles(tiles: &[Tile], style: DisplayStyle) -> String;
}

impl TileDisplay for Tile {
    fn display(&self, style: DisplayStyle) -> (text: String)
        ensures
            text@ == tile_text(*self, style),
    {
        styled_display(self, style)
    }

    fn display_tiles(tiles: &[Tile], style: DisplayStyle) -> (text: String)
        ensures
            text@ == joined_text(tiles@, style, ColorStyle::Plain, tiles@.len() as int),
    {
        joined_display(tiles, style, ColorStyle::Plain)
    }
}

/// Writing tiles as coloured text.
pub trait ColoredTileDisplay: TileDisplay {
    /// The text of the tile in the style, in colour if asked for.
    fn display_colored(&self, style: DisplayStyle, color_style: ColorStyle) -> String;

    /// The texts of the tiles, in colour if asked for, with a space
    /// between them.
    fn display_tiles_colored(
        tiles: &[Tile],
        style: DisplayStyle,
        color_style: ColorStyle,
    ) -> String;
}

impl ColoredTileDisplay for Tile {
    fn display_colored(&self, style: DisplayStyle, color_style: ColorStyle) -> (text: String)
        ensures
            text@ == colored_text(*self, style, color_style),
    {
        colored_display(self, style, color_style)
    }

    fn display_tiles_colored(tiles: &[Tile], style: DisplayStyle, color_style: ColorStyle) -> (text:
        String)
        ensures
            text@ == joined_text(tiles@, style, color_style, tiles@.len() as int),
    {
        joined_display(tiles, style, color_style)
    }
}

/// A list of tiles to be written in rows.
pub struct TileGrid {
    tiles: Vec<Tile>,
    columns: usize,
    style: DisplayStyle,
    color_style: ColorStyle,
}

/// A grid as plain values.
pub struct TileGridView {
    pub tiles: Seq<Tile>,
    pub columns: nat,
    pub style: DisplayStyle,
    pub color_style: ColorStyle,
}

impl View for TileGrid {
    type V = TileGridView;

    closed spec fn view(&self) -> TileGridView {
        TileGridView {
            tiles: self.tiles@,
            columns: self.columns as nat,
            style: self.style,
            color_style: self.color_style,
        }
    }
}

impl TileGrid {
    /// A grid of the tiles in rows of `columns`, in the default style
    /// without colour.
    pub fn new(tiles: Vec<Tile>, columns: usize) -> (grid: Self)
        ensures
            grid@ == (TileGridView {
                tiles: tiles@,
                columns: columns as nat,
                style: DisplayStyle::Default,
                color_style: ColorStyle::Plain,
            }),
    {
        TileGrid { tiles, columns, style: DisplayStyle::Default, color_style: ColorStyle::Plain }
    }

    /// The number of tiles in a row.
    pub fn columns(&self) -> (columns: usize)
        ensures
            columns == self@.columns,
    {
        self.columns
    }

    /// The grid in another style.
    pub fn with_style(self, style: DisplayStyle) -> (grid: Self)
        ensures
            grid@ == (TileGridView { style, ..self@ }),
    {
        let mut grid = self;
        grid.style = style;
        grid
    }

    /// The grid with or without colour.
    pub fn with_color(self, color_style: ColorStyle) -> (grid: Self)
        ensures
            grid@ == (TileGridView { color_style, ..self@ }),
    {
        let mut grid = self;
        grid.color_style = color_style;
        grid
    }

    /// The text of the grid: the tiles in rows, a space between the tiles
    /// of a row and a line break between rows.
    pub fn to_string(&self) -> (text: String)
        requires
            self@.columns > 0,
        ensures
            text@ == grid_text(
                self@.tiles,
                self@.columns as int,
                self@.style,
                self@.color_style,
                self@.tiles.len() as int,
            ),
    {
        let mut text: String = String::new();
        let mut i: usize = 0;
        while i < self.tiles.len()
            invariant
                i <= self.tiles@.len(),
                self.columns > 0,
                text@ == grid_text(
                    self.tiles@,
                    self.columns as int,
                    self.style,
                    self.color_style,
                    i as int,
                ),
            decreases self.tiles@.len() - i,
        {
            let one: String = colored_display(&self.tiles[i], self.style, self.color_style);
            if i > 0 {
                if i % self.columns == 0 {
                    text.append("\n");
                } else {
                    text.append(" ");
                }
            }
            text.append(one.as_str());
            i = i + 1;
        }
        text
    }
}

} // verus!
