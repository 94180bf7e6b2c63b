//! Bonus tiles under the Shanghai variant.

use vstd::prelude::*;
use crate::game::context::GameContext;
use crate::hand::representation::Hand;
use crate::rules::facts::up_to_255;

verus! {

/// What the bonus tiles laid aside add to each payment: one for each
/// tile, up to 255.
pub fn calculate_flower_fan(hand: &Hand, context: &GameContext) -> (fan: u32)
    ensures
        fan == up_to_255(hand@.flowers.len()),
{
    let count: usize = hand.get_flowers().len();
    if count > 255 {
        255
    } else {
        count as u32
    }
}

} // verus!
