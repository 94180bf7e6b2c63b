//! The text notation of hands. A hand is written as words separated by
//! spaces. A word lists tiles: ranks followed by the letter of their
//! suit (`m` characters, `p` dots, `s` bamboos, `z` honors numbered from
//! 1 to 7: east, south, west, north, white, green, red) or a letter for
//! an honor (`E`, `S`, `W`, `N`, `B` white, `F` green, `Z` red). A word
//! that starts with `P:`, `C:`, `K:`, `Kk:` or `Ka:` is a declared
//! triple, run, open quad, concealed quad or promoted quad, and a word
//! that starts with `D:` is the drawn tile.

use vstd::prelude::*;
use crate::hand::representation::{hand_capacity, Hand, HandView};
use crate::meld::types::{KanType, Meld, MeldSource, MeldType, MeldView};
use crate::tile::{Dragon, Suit, Tile, Wind};

verus! {

/// What a word of the notation stands for.
#[derive(Debug, Clone, Copy, PartialEq, Eq, Structural)]
pub enum WordKind {
    /// Concealed tiles.
    Concealed,
    /// A declared triple.
    Pon,
    /// A declared run.
    Chi,
    /// A declared open quad.
    OpenKan,
    /// A declared concealed quad.
    ClosedKan,
    /// A declared promoted quad.
    AddedKan,
    /// The drawn tile.
    Drawn,
}

/// The reading of the tiles of a word, one character after the other.
pub struct Reading {
    /// The tiles read so far.
    pub tiles: Seq<Tile>,
    /// The ranks read since the last suit letter.
    pub ranks: Seq<u8>,
    /// Whether every character so far was in its place.
    pub valid: bool,
}

/// The rank that a character stands for, from 1 to 9; else 0.
pub open spec fn rank_of_char(c: char) -> u8 {
    if c == '1' {
        1
    } else if c == '2' {
        2
    } else if c == '3' {
        3
    } else if c == '4' {
        4
    } else if c == '5' {
        5
    } else if c == '6' {
        6
    } else if c == '7' {
        7
    } else if c == '8' {
        8
    } else if c == '9' {
        9
    } else {
        0
    }
}

/// The honor with a number from 1 to 7.
pub open spec fn honor_number(number: u8) -> Tile {
    if number == 1 {
        Tile::Wind(Wind::East)
    } else if number == 2 {
        Tile::Wind(Wind::South)
    } else if number == 3 {
        Tile::Wind(Wind::West)
    } else if number == 4 {
        Tile::Wind(Wind::North)
    } else if number == 5 {
        Tile::Dragon(Dragon::White)
    } else if number == 6 {
        Tile::Dragon(Dragon::Green)
    } else {
        Tile::Dragon(Dragon::Red)
    }
}

/// The honor that a letter stands for.
pub open spec fn honor_letter(c: char) -> Option<Tile> {
    if c == 'E' {
        Some(Tile::Wind(Wind::East))
    } else if c == 'S' {
        Some(Tile::Wind(Wind::South))
    } else if c == 'W' {
        Some(Tile::Wind(Wind::West))
    } else if c == 'N' {
        Some(Tile::Wind(Wind::North))
    } else if c == 'B' {
        Some(Tile::Dragon(Dragon::White))
    } else if c == 'F' {
        Some(Tile::Dragon(Dragon::Green))
    } else if c == 'Z' {
        Some(Tile::Dragon(Dragon::Red))
    } else {
        None
    }
}

/// The tile of a rank under a suit letter, if the letter is one and the
/// rank is within its range.
pub open spec fn tile_under(letter: char, rank: u8) -> Option<Tile> {
    if letter == 'm' {
        Some(Tile::Suit(Suit::Character, rank))
    } else if letter == 'p' {
        Some(Tile::Suit(Suit::Dot, rank))
    } else if letter == 's' {
        Some(Tile::Suit(Suit::Bamboo, rank))
    } else if letter == 'z' && rank <= 7 {
        Some(honor_number(rank))
    } else {
        None
    }
}

/// Every rank stands for a tile under the letter.
pub open spec fn all_under(letter: char, ranks: Seq<u8>) -> bool {
    forall|i: int| 0 <= i < ranks.len() ==> tile_under(letter, #[trigger] ranks[i]) is Some
}

/// The tiles of the ranks under a suit letter.
pub open spec fn tiles_under(letter: char, ranks: Seq<u8>) -> Seq<Tile> {
    Seq::new(ranks.len(), |i: int| tile_under(letter, ranks[i]).unwrap())
}

/// The reading after one more character. A rank is kept until its suit
/// letter comes; a suit letter turns the ranks kept into tiles and needs
/// at least one; an honor letter is a tile and may not follow a rank
/// that has no suit yet. Any other character spoils the reading.
pub open spec fn read_char(reading: Reading, c: char) -> Reading {
    if !reading.valid {
        reading
    } else if rank_of_char(c) != 0 {
        Reading { ranks: reading.ranks.push(rank_of_char(c)), ..reading }
    } else if c == 'm' || c == 'p' || c == 's' || c == 'z' {
        if reading.ranks.len() > 0 && all_under(c, reading.ranks) {
            Reading {
                tiles: reading.tiles + tiles_under(c, reading.ranks),
                ranks: Seq::empty(),
                valid: true,
            }
        } else {
            Reading { valid: false, ..reading }
        }
    } else if honor_letter(c) is Some && reading.ranks.len() == 0 {
        Reading { tiles: reading.tiles.push(honor_letter(c).unwrap()), ..reading }
    } else {
        Reading { valid: false, ..reading }
    }
}

/// The reading of a text from the start.
pub open spec fn read_all(text: Seq<char>) -> Reading
    decreases text.len(),
{
    if text.len() == 0 {
        Reading { tiles: Seq::empty(), ranks: Seq::empty(), valid: true }
    } else {
        read_char(read_all(text.drop_last()), text.last())
    }
}

/// The tiles that a text lists, if it is well written: every character
/// in its place and no rank left without a suit.
pub open spec fn tiles_of_text(text: Seq<char>) -> Option<Seq<Tile>> {
    if read_all(text).valid && read_all(text).ranks.len() == 0 {
        Some(read_all(text).tiles)
    } else {
        None
    }
}

/// The tile of a rank under a suit letter.
fn tile_for(letter: char, rank: u8) -> (tile: Option<Tile>)
    ensures
        tile == tile_under(letter, rank),
        1 <= rank <= 9 ==> (tile matches Some(t) ==> t.wf()),
{
    if letter == 'm' {
        Some(Tile::Suit(Suit::Character, rank))
    } else if letter == 'p' {
        Some(Tile::Suit(Suit::Dot, rank))
    } else if letter == 's' {
        Some(Tile::Suit(Suit::Bamboo, rank))
    } else if letter == 'z' && rank <= 7 {
        if rank == 1 {
            Some(Tile::Wind(Wind::East))
        } else if rank == 2 {
            Some(Tile::Wind(Wind::South))
        } else if rank == 3 {
            Some(Tile::Wind(Wind::West))
        } else if rank == 4 {
            Some(Tile::Wind(Wind::North))
        } else if rank == 5 {
            Some(Tile::Dragon(Dragon::White))
        } else if rank == 6 {
            Some(Tile::Dragon(Dragon::Green))
        } else {
            Some(Tile::Dragon(Dragon::Red))
        }
    } else {
        None
    }
}

/// The rank that a character stands for.
fn rank_for(c: char) -> (rank: u8)
    ensures
        rank == rank_of_char(c),
        rank <= 9,
{
    if c == '1' {
        1
    } else if c == '2' {
        2
    } else if c == '3' {
        3
    } else if c == '4' {
        4
    } else if c == '5' {
        5
    } else if c == '6' {
        6
    } else if c == '7' {
        7
    } else if c == '8' {
        8
    } else if c == '9' {
        9
    } else {
        0
    }
}

/// The honor that a letter stands for.
fn honor_for(c: char) -> (tile: Option<Tile>)
    ensures
        tile == honor_letter(c),
{
    if c == 'E' {
        Some(Tile::Wind(Wind::East))
    } else if c == 'S' {
        Some(Tile::Wind(Wind::South))
    } else if c == 'W' {
        Some(Tile::Wind(Wind::West))
    } else if c == 'N' {
        Some(Tile::Wind(Wind::North))
    } else if c == 'B' {
        Some(Tile::Dragon(Dragon::White))
    } else if c == 'F' {
        Some(Tile::Dragon(Dragon::Green))
    } else if c == 'Z' {
        Some(Tile::Dragon(Dragon::Red))
    } else {
        None
    }
}

/// The tiles that the characters from `from` up to `to` list, if they
/// are well written.
pub fn parse_tiles(text: &Vec<char>, from: usize, to: usize) -> (tiles: Option<Vec<Tile>>)
    requires
        from <= to <= text@.len(),
    ensures
        match tiles {
            Some(list) => tiles_of_text(text@.subrange(from as int, to as int)) == Some(list@)
                && forall|i: int| 0 <= i < list@.len() ==> (#[trigger] list@[i]).wf(),
            None => tiles_of_text(text@.subrange(from as int, to as int)) is None,
        },
{
    let ghost word = text@.subrange(from as int, to as int);
    let mut tiles: Vec<Tile> = Vec::new();
    let mut ranks: Vec<u8> = Vec::new();
    let mut i: usize = from;
    while i < to
        invariant
            from <= i <= to,
            to <= text@.len(),
            word == text@.subrange(from as int, to as int),
            read_all(word.take(i - from)) == (Reading {
                tiles: tiles@,
                ranks: ranks@,
                valid: true,
            }),
            forall|k: int| 0 <= k < tiles@.len() ==> (#[trigger] tiles@[k]).wf(),
            forall|k: int| 0 <= k < ranks@.len() ==> 1 <= #[trigger] ranks@[k] <= 9,
        decreases to - i,
    {
        let c: char = text[i];
        assert(word.take(i - from + 1).drop_last() == word.take(i - from));
        let rank: u8 = rank_for(c);
        if rank != 0 {
            ranks.push(rank);
        } else if c == 'm' || c == 'p' || c == 's' || c == 'z' {
            let ghost kept = ranks@;
            let ghost read = tiles@;
            let mut failed: bool = ranks.len() == 0;
            let mut k: usize = 0;
            while k < ranks.len()
                invariant
                    k <= ranks@.len(),
                    ranks@ == kept,
                    c == 'm' || c == 'p' || c == 's' || c == 'z',
                    forall|j: int| 0 <= j < kept.len() ==> 1 <= #[trigger] kept[j] <= 9,
                    forall|j: int| 0 <= j < read.len() ==> (#[trigger] read[j]).wf(),
                    !failed ==> forall|j: int|
                        0 <= j < k ==> tile_under(c, #[trigger] kept[j]) is Some,
                    !failed ==> tiles@ == read + tiles_under(c, kept.take(k as int)),
                    failed ==> kept.len() == 0 || !all_under(c, kept),
                    !failed ==> kept.len() > 0,
                decreases ranks@.len() - k,
            {
                match tile_for(c, ranks[k]) {
                    Some(tile) => {
                        if !failed {
                            tiles.push(tile);
                        }
                    },
                    None => {
                        failed = true;
                    },
                }
                k = k + 1;
            }
            if failed {
                proof {
                    lemma_spoiled_stays(word, i - from + 1);
                }
                return None;
            }
            assert(kept.take(k as int) == kept);
            ranks = Vec::new();
        } else {
            match honor_for(c) {
                Some(tile) => {
                    if ranks.len() != 0 {
                        proof {
                            lemma_spoiled_stays(word, i - from + 1);
                        }
                        return None;
                    }
                    tiles.push(tile);
                },
                None => {
                    proof {
                        lemma_spoiled_stays(word, i - from + 1);
                    }
                    return None;
                },
            }
        }
        i = i + 1;
    }
    assert(word.take(to - from) == word);
    if ranks.len() != 0 {
        return None;
    }
    Some(tiles)
}

/// A reading that is spoiled stays spoiled.
pub proof fn lemma_spoiled_stays(text: Seq<char>, length: int)
    requires
        0 <= length <= text.len(),
        !read_all(text.take(length)).valid,
    ensures
        !read_all(text).valid,
    decreases text.len() - length,
{
    if length < text.len() {
        assert(text.take(length + 1).drop_last() == text.take(length));
        lemma_spoiled_stays(text, length + 1);
    } else {
        assert(text.take(length) == text);
    }
}

/// The characters of a text.
pub fn chars_of(text: &str) -> (chars: Vec<char>)
    ensures
        chars@ == text@,
{
    let length: usize = text.unicode_len();
    let mut chars: Vec<char> = Vec::new();
    let mut i: usize = 0;
    while i < length
        invariant
            i <= length,
            length == text@.len(),
            chars@ == text@.take(i as int),
        decreases length - i,
    {
        chars.push(text.get_char(i));
        i = i + 1;
    }
    chars
}

/// The kind of a word and the place where its tiles start, from its
/// characters from `from` up to `to`.
pub open spec fn word_kind(word: Seq<char>) -> (WordKind, int) {
    if word.len() >= 2 && word[1] == ':' {
        if word[0] == 'P' {
            (WordKind::Pon, 2)
        } else if word[0] == 'C' {
            (WordKind::Chi, 2)
        } else if word[0] == 'K' {
            (WordKind::OpenKan, 2)
        } else if word[0] == 'D' {
            (WordKind::Drawn, 2)
        } else {
            (WordKind::Concealed, 0)
        }
    } else if word.len() >= 3 && word[0] == 'K' && word[2] == ':' {
        if word[1] == 'k' {
            (WordKind::ClosedKan, 3)
        } else if word[1] == 'a' {
            (WordKind::AddedKan, 3)
        } else {
            (WordKind::Concealed, 0)
        }
    } else {
        (WordKind::Concealed, 0)
    }
}

/// The kind of a word and the place where its tiles start.
fn kind_of_word(text: &Vec<char>, from: usize, to: usize) -> (found: (WordKind, usize))
    requires
        from <= to <= text@.len(),
    ensures
        found.0 == word_kind(text@.subrange(from as int, to as int)).0,
        found.1 == from + word_kind(text@.subrange(from as int, to as int)).1,
        from <= found.1 <= to,
{
    let length: usize = to - from;
    if length >= 2 && text[from + 1] == ':' {
        let first: char = text[from];
        if first == 'P' {
            (WordKind::Pon, from + 2)
        } else if first == 'C' {
            (WordKind::Chi, from + 2)
        } else if first == 'K' {
            (WordKind::OpenKan, from + 2)
        } else if first == 'D' {
            (WordKind::Drawn, from + 2)
        } else {
            (WordKind::Concealed, from)
        }
    } else if length >= 3 && text[from] == 'K' && text[from + 2] == ':' {
        let second: char = text[from + 1];
        if second == 'k' {
            (WordKind::ClosedKan, from + 3)
        } else if second == 'a' {
            (WordKind::AddedKan, from + 3)
        } else {
            (WordKind::Concealed, from)
        }
    } else {
        (WordKind::Concealed, from)
    }
}

/// The provenance of the tiles of a meld written in the notation: the
/// first tile of a claimed meld comes from seat 0, every other tile from
/// the owner.
pub open spec fn written_sources(kind: WordKind, count: nat) -> Seq<MeldSource> {
    Seq::new(
        count,
        |i: int|
            if i == 0 && kind != WordKind::ClosedKan {
                MeldSource::Player(0)
            } else {
                MeldSource::SelfDrawn
            },
    )
}

/// The kind of meld that a word of the notation declares.
pub open spec fn written_type(kind: WordKind) -> MeldType {
    match kind {
        WordKind::Pon => MeldType::Pon,
        WordKind::Chi => MeldType::Chi,
        WordKind::OpenKan => MeldType::Kan(KanType::Open),
        WordKind::ClosedKan => MeldType::Kan(KanType::Closed),
        WordKind::AddedKan => MeldType::Kan(KanType::Added),
        _ => MeldType::Pon,
    }
}

/// The meld that a word of the notation declares with its tiles.
pub open spec fn written_meld(kind: WordKind, tiles: Seq<Tile>) -> MeldView {
    MeldView {
        tiles,
        meld_type: written_type(kind),
        sources: written_sources(kind, tiles.len()),
    }
}

/// The hand with the meld among its melds, no tile taken from it; the
/// hand as it is if the meld is not well formed or four melds are
/// declared already.
pub open spec fn with_meld(view: HandView, meld: MeldView) -> Option<HandView> {
    if meld.wf() && view.melds.len() < 4 {
        Some(HandView { melds: view.melds.push(meld), ..view })
    } else {
        None
    }
}

/// The hand with the tiles added to its concealed tiles, one after the
/// other.
pub open spec fn with_tiles(view: HandView, tiles: Seq<Tile>) -> HandView
    decreases tiles.len(),
{
    if tiles.len() == 0 {
        view
    } else {
        with_tiles(view, tiles.drop_last()).with_tile(tiles.last())
    }
}

/// Whether a character separates words.
pub open spec fn is_space(c: char) -> bool {
    c == ' ' || c == '\t' || c == '\n' || c == '\r'
}

/// The place where the word that starts at `from` ends: the next space,
/// or the end of the text.
pub open spec fn word_end(text: Seq<char>, from: int) -> int
    decreases text.len() - from,
{
    if from >= text.len() || is_space(text[from]) {
        from
    } else {
        word_end(text, from + 1)
    }
}

/// The hand with the tiles added to its concealed tiles, if it can count
/// so many.
pub open spec fn with_tiles_checked(view: HandView, tiles: Seq<Tile>) -> Option<HandView> {
    if view.concealed() + tiles.len() <= hand_capacity() {
        Some(with_tiles(view, tiles))
    } else {
        None
    }
}

/// The hand after a word of the notation: concealed tiles are added, a
/// meld is put among the melds, the drawn tile is set. Nothing if the
/// word is not well written, lists more tiles than the hand can count,
/// declares no well-formed meld or a fifth meld, or does not name
/// exactly one drawn tile.
pub open spec fn after_word(view: HandView, word: Seq<char>) -> Option<HandView> {
    let (kind, start) = word_kind(word);
    match tiles_of_text(word.subrange(start, word.len() as int)) {
        None => None,
        Some(tiles) => match kind {
            WordKind::Concealed => with_tiles_checked(view, tiles),
            WordKind::Drawn => if tiles.len() == 1 {
                Some(view.with_drawn(Some(tiles[0])))
            } else {
                None
            },
            _ => with_meld(view, written_meld(kind, tiles)),
        },
    }
}

/// The hand after the words of the text from `from` on.
pub open spec fn parse_from(view: HandView, text: Seq<char>, from: int) -> Option<HandView>
    decreases text.len() - from, 1int,
{
    if from < 0 || from >= text.len() {
        Some(view)
    } else if is_space(text[from]) {
        parse_from(view, text, from + 1)
    } else {
        match after_word(view, text.subrange(from, word_end(text, from))) {
            None => None,
            Some(next) => if from < word_end(text, from) <= text.len() {
                parse_from(next, text, word_end(text, from))
            } else {
                None
            },
        }
    }
}

/// The hand that a text denotes, if the text is well written.
pub open spec fn parsed(text: Seq<char>) -> Option<HandView> {
    parse_from(HandView::empty(), text, 0)
}

/// Whether a character separates words.
fn space(c: char) -> (yes: bool)
    ensures
        yes == is_space(c),
{
    c == ' ' || c == '\t' || c == '\n' || c == '\r'
}

/// The place where the word that starts at `from` ends.
fn end_of_word(text: &Vec<char>, from: usize) -> (end: usize)
    requires
        from <= text@.len(),
    ensures
        end == word_end(text@, from as int),
        from <= end <= text@.len(),
        from < text@.len() && !is_space(text@[from as int]) ==> end > from,
{
    let mut end: usize = from;
    while end < text.len() && !space(text[end])
        invariant
            from <= end <= text@.len(),
            word_end(text@, from as int) == word_end(text@, end as int),
        decreases text@.len() - end,
    {
        end = end + 1;
    }
    end
}

/// Adding tiles one after the other adds them all.
proof fn lemma_with_tiles_step(view: HandView, tiles: Seq<Tile>, count: int)
    requires
        0 <= count < tiles.len(),
    ensures
        with_tiles(view, tiles.take(count + 1)) == with_tiles(view, tiles.take(count)).with_tile(
            tiles[count],
        ),
{
    assert(tiles.take(count + 1).drop_last() == tiles.take(count));
}

/// The provenance of the tiles of a meld written in the notation.
fn sources_for(kind: WordKind, count: usize) -> (sources: Vec<MeldSource>)
    ensures
        sources@ == written_sources(kind, count as nat),
{
    let claimed: bool = match kind {
        WordKind::ClosedKan => false,
        _ => true,
    };
    let mut sources: Vec<MeldSource> = Vec::new();
    let mut i: usize = 0;
    while i < count
        invariant
            i <= count,
            claimed == (kind != WordKind::ClosedKan),
            sources@.len() == i,
            forall|k: int|
                0 <= k < i ==> #[trigger] sources@[k] == written_sources(kind, count as nat)[k],
        decreases count - i,
    {
        if i == 0 && claimed {
            sources.push(MeldSource::Player(0));
        } else {
            sources.push(MeldSource::SelfDrawn);
        }
        i = i + 1;
    }
    sources
}

/// Applies one word of the notation to the hand. On failure the hand may
/// have changed and is to be thrown away.
fn apply_word(hand: &mut Hand, text: &Vec<char>, from: usize, to: usize) -> (applied: bool)
    requires
        old(hand).wf(),
        from <= to <= text@.len(),
    ensures
        final(hand).wf(),
        match after_word(old(hand)@, text@.subrange(from as int, to as int)) {
            Some(view) => applied && final(hand)@ == view,
            None => !applied,
        },
{
    let ghost word = text@.subrange(from as int, to as int);
    let (kind, start) = kind_of_word(text, from, to);
    assert(text@.subrange(start as int, to as int) =~= word.subrange(
        start - from,
        word.len() as int,
    ));
    let tiles: Vec<Tile> = match parse_tiles(text, start, to) {
        Some(tiles) => tiles,
        None => {
            return false;
        },
    };
    match kind {
        WordKind::Concealed => {
            let held: usize = hand.concealed_count();
            if tiles.len() > usize::MAX - 17 - held {
                return false;
            }
            let ghost start_view = hand@;
            let mut i: usize = 0;
            while i < tiles.len()
                invariant
                    i <= tiles@.len(),
                    hand.wf(),
                    start_view.concealed() + tiles@.len() <= hand_capacity(),
                    hand@.concealed() == start_view.concealed() + i,
                    hand@ == with_tiles(start_view, tiles@.take(i as int)),
                    forall|k: int| 0 <= k < tiles@.len() ==> (#[trigger] tiles@[k]).wf(),
                decreases tiles@.len() - i,
            {
                proof {
                    lemma_with_tiles_step(start_view, tiles@, i as int);
                }
                hand.add_tile(tiles[i]);
                i = i + 1;
            }
            assert(tiles@.take(i as int) == tiles@);
            true
        },
        WordKind::Drawn => {
            if tiles.len() != 1 {
                return false;
            }
            hand.set_drawn_tile(Some(tiles[0]));
            true
        },
        _ => {
            let sources: Vec<MeldSource> = sources_for(kind, tiles.len());
            let meld_type: MeldType = match kind {
                WordKind::Pon => MeldType::Pon,
                WordKind::Chi => MeldType::Chi,
                WordKind::OpenKan => MeldType::Kan(KanType::Open),
                WordKind::ClosedKan => MeldType::Kan(KanType::Closed),
                WordKind::AddedKan => MeldType::Kan(KanType::Added),
                _ => MeldType::Pon,
            };
            hand.attach_meld(Meld { tiles, meld_type, sources })
        },
    }
}

/// Reads a hand from its notation. A text that is not well written, or
/// that declares a meld that is none, is refused with a message.
pub fn parse_hand_string(s: &str) -> (read: Result<Hand, String>)
    ensures
        match parsed(s@) {
            Some(view) => read matches Ok(hand) && hand@ == view && hand.wf(),
            None => read is Err,
        },
{
    let text: Vec<char> = chars_of(s);
    let mut hand: Hand = Hand::new();
    let mut i: usize = 0;
    while i < text.len()
        invariant
            i <= text@.len(),
            text@ == s@,
            hand.wf(),
            parsed(text@) == parse_from(hand@, text@, i as int),
        decreases text@.len() - i,
    {
        if space(text[i]) {
            i = i + 1;
        } else {
            let end: usize = end_of_word(&text, i);
            if !apply_word(&mut hand, &text, i, end) {
                return Err(String::from_str("Invalid hand string"));
            }
            i = end;
        }
    }
    Ok(hand)
}

} // verus!
