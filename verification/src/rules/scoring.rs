//! The parts of a score that every rule variant shares: the matched
//! categories with their weights, and the points that change hands.

use vstd::prelude::*;

verus! {

/// One scoring category that a hand matched, with its weight.
#[derive(Debug, Clone)]
pub struct Yaku {
    pub name: String,
    pub han: u32,
}

/// The points that change hands for a win.
#[derive(Debug, Clone, Copy, PartialEq, Eq, Structural)]
pub struct Transfer {
    /// What the winner receives in all.
    pub total: i32,
    /// What the player who discarded the winning tile pays.
    pub from_discarder: i32,
    /// What the dealer pays when the winner, not the dealer, drew the
    /// winning tile.
    pub from_dealer: i32,
    /// What each other player pays.
    pub from_each_other: i32,
}

/// The score of a complete hand.
#[derive(Debug, Clone)]
pub struct ScoreResult {
    /// The matched categories with their weights, in the order of the
    /// variant.
    pub yaku: Vec<Yaku>,
    /// The base measure of the variants that have one; else 0.
    pub fu: u32,
    /// The points the winner receives.
    pub score: i32,
    /// The sum of the weights that count towards the multiplier.
    pub han: u32,
    /// The points that change hands.
    pub payment: Transfer,
}

/// A list of categories as plain values.
#[verifier::opaque]
pub open spec fn yaku_views(list: Seq<Yaku>) -> Seq<(Seq<char>, nat)> {
    Seq::new(list.len(), |i: int| (list[i].name@, list[i].han as nat))
}

/// A score as plain values.
pub struct ScoreView {
    pub yaku: Seq<(Seq<char>, nat)>,
    pub fu: nat,
    pub score: int,
    pub han: nat,
    pub payment: Transfer,
}

impl View for ScoreResult {
    type V = ScoreView;

    open spec fn view(&self) -> ScoreView {
        ScoreView {
            yaku: yaku_views(self.yaku@),
            fu: self.fu as nat,
            score: self.score as int,
            han: self.han as nat,
            payment: self.payment,
        }
    }
}

/// The list of no categories.
pub open spec fn no_categories() -> Seq<(Seq<char>, nat)> {
    Seq::empty()
}

/// The list with the category added at its end if the condition holds
/// and the weight is not 0; else the list as it is.
#[verifier::opaque]
pub open spec fn also(
    list: Seq<(Seq<char>, nat)>,
    applies: bool,
    name: Seq<char>,
    weight: nat,
) -> Seq<(Seq<char>, nat)> {
    if applies && weight > 0 {
        list.push((name, weight))
    } else {
        list
    }
}

/// The weights of a list of categories, added up.
#[verifier::opaque]
pub open spec fn weights_total(list: Seq<(Seq<char>, nat)>) -> nat
    decreases list.len(),
{
    if list.len() == 0 {
        0
    } else {
        weights_total(list.drop_last()) + list.last().1
    }
}

/// A category that is added adds its weight to the total and lengthens
/// the list by one; one that is not leaves the list as it is.
pub proof fn lemma_also(list: Seq<(Seq<char>, nat)>, applies: bool, name: Seq<char>, weight: nat)
    ensures
        weights_total(also(list, applies, name, weight)) == weights_total(list) + if applies {
            weight
        } else {
            0
        },
        also(list, applies, name, weight).len() == list.len() + if applies && weight > 0 {
            1int
        } else {
            0int
        },
        !(applies && weight > 0) ==> also(list, applies, name, weight) == list,
        applies && weight > 0 ==> also(list, applies, name, weight) == list.push((name, weight)),
{
    reveal(weights_total);
    reveal(also);
    if applies && weight > 0 {
        assert(list.push((name, weight)).drop_last() == list);
    }
}

/// An empty list of categories, with its total.
pub fn new_list() -> (list: Vec<Yaku>)
    ensures
        yaku_views(list@) == no_categories(),
        weights_total(yaku_views(list@)) == 0,
{
    let list: Vec<Yaku> = Vec::new();
    proof {
        reveal(yaku_views);
        reveal(weights_total);
    }
    list
}

/// Adds a category to a list if the condition holds and the weight is
/// not 0, and returns the total of the list, given its total before.
pub fn add_entry(list: &mut Vec<Yaku>, total: u32, applies: bool, name: &str, weight: u32) -> (sum:
    u32)
    requires
        total + weight <= u32::MAX,
        total == weights_total(yaku_views(old(list)@)),
    ensures
        yaku_views(final(list)@) == also(yaku_views(old(list)@), applies, name@, weight as nat),
        sum == weights_total(yaku_views(final(list)@)),
        sum == total + if applies {
            weight
        } else {
            0
        },
{
    proof {
        reveal(yaku_views);
        lemma_also(yaku_views(list@), applies, name@, weight as nat);
    }
    if applies && weight > 0 {
        list.push(Yaku { name: String::from_str(name), han: weight });
        total + weight
    } else {
        total
    }
}

/// The total of a leading part of a list is no larger than that of all.
pub proof fn lemma_weights_prefix(list: Seq<(Seq<char>, nat)>, length: int)
    requires
        0 <= length <= list.len(),
    ensures
        weights_total(list.take(length)) <= weights_total(list),
        length < list.len() ==> weights_total(list.take(length + 1)) == weights_total(
            list.take(length),
        ) + list[length].1,
    decreases list.len() - length,
{
    reveal(weights_total);
    if length < list.len() {
        assert(list.take(length + 1).drop_last() == list.take(length));
        lemma_weights_prefix(list, length + 1);
    } else {
        assert(list.take(length) == list);
    }
}

/// The weights of a list of categories, added up.
pub fn total_weight(list: &Vec<Yaku>) -> (total: u32)
    requires
        weights_total(yaku_views(list@)) <= u32::MAX,
    ensures
        total == weights_total(yaku_views(list@)),
{
    let ghost views = yaku_views(list@);
    proof {
        lemma_yaku_views(list@);
        reveal(weights_total);
    }
    let mut total: u32 = 0;
    let mut i: usize = 0;
    while i < list.len()
        invariant
            i <= list@.len(),
            views == yaku_views(list@),
            views.len() == list@.len(),
            forall|k: int|
                0 <= k < list@.len() ==> #[trigger] views[k] == (list@[k].name@, list@[k].han as nat),
            weights_total(views) <= u32::MAX,
            total == weights_total(views.take(i as int)),
        decreases list@.len() - i,
    {
        proof {
            lemma_weights_prefix(views, i as int);
            lemma_weights_prefix(views, i + 1);
        }
        total = total + list[i].han;
        i = i + 1;
    }
    assert(views.take(i as int) == views);
    total
}

/// The number of categories of a list is that of its plain values, and
/// each category is found at its place.
pub proof fn lemma_yaku_views(list: Seq<Yaku>)
    ensures
        yaku_views(list).len() == list.len(),
        forall|i: int|
            0 <= i < list.len() ==> #[trigger] yaku_views(list)[i] == (
                list[i].name@,
                list[i].han as nat,
            ),
{
    reveal(yaku_views);
}

} // verus!
