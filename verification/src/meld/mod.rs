//! Declared groups of tiles: runs, triples and quads, with the provenance of
//! each tile, and the rules that say which groups are legal.

pub mod display;
pub mod types;
pub mod utils;

pub use types::{KanType, Meld, MeldSource, MeldType};
pub use utils::{
    can_form_chi, can_form_kan, can_form_pon, get_kan_tile_count, get_kan_tiles,
    get_possible_chi_combinations, sort_tiles_in_meld, validate_chi, validate_kan, validate_pon,
};
