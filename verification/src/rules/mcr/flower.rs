//! Bonus tiles under the competition rules: a point each.

use vstd::prelude::*;
use crate::hand::representation::Hand;
use crate::rules::facts::up_to_255;

verus! {

/// The points of the bonus tiles that the hand has laid aside: one for
/// each, up to 255.
pub fn calculate_mcr_flower_score(hand: &Hand) -> (points: u32)
    ensures
        points == up_to_255(hand@.flowers.len()),
{
    let count: usize = hand.get_flowers().len();
    if count > 255 {
        255
    } else {
        count as u32
    }
}

} // verus!
