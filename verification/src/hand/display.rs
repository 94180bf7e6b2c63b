//! Hands as text.

use vstd::prelude::*;
use crate::hand::representation::{expand, Hand, HandView};
use crate::meld::display::{melds_display, melds_text};
use crate::tile::display::{default_text, joined_display, joined_text, ColorStyle, DisplayStyle};
use crate::tile::Tile;

verus! {

/// What the drawn tile adds to the text of a hand.
pub open spec fn drawn_text(drawn: Option<Tile>) -> Seq<char> {
    match drawn {
        Some(tile) => " Drawn: "@ + default_text(tile),
        None => Seq::empty(),
    }
}

/// The text of a hand: its concealed tiles in the order of their ids,
/// its melds, and its drawn tile if it has one.
pub open spec fn hand_text(view: HandView) -> Seq<char> {
    "Closed: ["@ + joined_text(
        expand(view.counts, 43),
        DisplayStyle::Default,
        ColorStyle::Plain,
        expand(view.counts, 43).len() as int,
    ) + "] Melds: ["@ + melds_text(view.melds, view.melds.len() as int) + "] "@ + drawn_text(
        view.drawn,
    )
}

impl Hand {
    /// The hand as text.
    pub fn to_string(&self) -> (text: String)
        requires
            self.wf(),
        ensures
            text@ == hand_text(self@),
    {
        let tiles: Vec<Tile> = self.get_closed_tiles();
        let closed: String = joined_display(tiles.as_slice(), DisplayStyle::Default, ColorStyle::Plain);
        let melds: String = melds_display(self.get_melds());
        let drawn: String = match self.get_drawn_tile() {
            Some(tile) => String::from_str(" Drawn: ").concat(tile.to_string().as_str()),
            None => String::new(),
        };
        String::from_str("Closed: [").concat(closed.as_str()).concat("] Melds: [").concat(
            melds.as_str(),
        ).concat("] ").concat(drawn.as_str())
    }
}

} // verus!
