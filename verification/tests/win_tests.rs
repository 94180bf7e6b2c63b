use majiang_core::hand::Hand;
use majiang_core::meld::{Meld, MeldSource, MeldType};
use majiang_core::rules::common::win_patterns::{
    can_form_melds, is_complete, is_standard_win_shape, PairsPolicy,
};
use majiang_core::rules::mcr::win_check::is_mcr_winning_shape;
use majiang_core::rules::riichi::win_check::{
    can_form_winning_hand, is_kokushi_musou, is_seven_pairs,
};
use majiang_core::tile::{Dragon, Suit, Tile, Wind};

fn m(n: u8) -> Tile {
    Tile::Suit(Suit::Character, n)
}

fn p(n: u8) -> Tile {
    Tile::Suit(Suit::Dot, n)
}

fn hand_of(tiles: &[Tile]) -> Hand {
    let mut hand = Hand::new();
    for tile in tiles {
        hand.add_tile(*tile);
    }
    hand
}

#[test]
fn three_triples_a_run_and_a_wind_pair_are_complete() {
    let east = Tile::Wind(Wind::East);
    let mut hand = hand_of(&[
        m(1),
        m(1),
        m(1),
        m(2),
        m(2),
        m(2),
        m(3),
        m(3),
        m(3),
        p(4),
        p(5),
        p(6),
        east,
    ]);
    assert!(!is_complete(&hand, PairsPolicy::Distinct));
    hand.set_drawn_tile(Some(east));
    assert!(is_complete(&hand, PairsPolicy::Distinct));
    assert!(is_complete(&hand, PairsPolicy::AllowQuads));
    assert!(is_standard_win_shape(&hand));
    assert!(can_form_winning_hand(&hand));
    assert!(!is_seven_pairs(&hand));
    assert!(!is_kokushi_musou(&hand));
    assert_eq!(majiang_core::hand::ShantenCalculator::calculate(&hand), -1);
}

#[test]
fn groups_are_found_whatever_way_they_overlap() {
    let mut counts = vec![0usize; 43];
    for id in [0usize, 1, 2, 1, 2, 3, 2, 3, 4] {
        counts[id] += 1;
    }
    assert!(can_form_melds(&mut counts, 3));
    assert!(!can_form_melds(&mut counts, 2));
    assert_eq!(counts[2], 3);
    let mut across = vec![0usize; 43];
    across[7] = 1;
    across[8] = 1;
    across[9] = 1;
    assert!(!can_form_melds(&mut across, 1));
    let mut winds = vec![0usize; 43];
    winds[27] = 1;
    winds[28] = 1;
    winds[29] = 1;
    assert!(!can_form_melds(&mut winds, 1));
    let mut empty = vec![0usize; 43];
    assert!(can_form_melds(&mut empty, 0));
    assert!(!can_form_melds(&mut empty, 1));
}

#[test]
fn a_declared_meld_counts_as_a_group() {
    let red = Tile::Dragon(Dragon::Red);
    let mut hand = hand_of(&[m(1), m(2), m(3), m(4), m(5), m(6), p(7), p(8), p(9), p(2), red, red]);
    hand.add_meld(
        Meld::new(
            vec![red; 3],
            MeldType::Pon,
            vec![MeldSource::Player(1), MeldSource::SelfDrawn, MeldSource::SelfDrawn],
        )
        .unwrap(),
    )
    .unwrap();
    assert!(!is_standard_win_shape(&hand));
    hand.set_drawn_tile(Some(p(2)));
    assert!(is_standard_win_shape(&hand));
    assert!(is_complete(&hand, PairsPolicy::Distinct));
}

#[test]
fn seven_pairs_under_both_policies() {
    let mut tiles = Vec::new();
    for n in [1u8, 3, 5, 7, 9] {
        tiles.push(m(n));
        tiles.push(m(n));
    }
    tiles.push(p(2));
    tiles.push(p(2));
    tiles.push(p(8));
    tiles.push(p(8));
    let hand = hand_of(&tiles);
    assert!(is_seven_pairs(&hand));
    assert!(is_complete(&hand, PairsPolicy::Distinct));
    assert!(is_mcr_winning_shape(&hand));
    assert!(!is_standard_win_shape(&hand));

    let mut with_quad = Vec::new();
    for n in [1u8, 1, 3, 5, 7, 9] {
        with_quad.push(m(n));
        with_quad.push(m(n));
    }
    with_quad.push(p(2));
    with_quad.push(p(2));
    let quad_hand = hand_of(&with_quad);
    assert!(!is_seven_pairs(&quad_hand));
    assert!(!is_complete(&quad_hand, PairsPolicy::Distinct));
    assert!(is_complete(&quad_hand, PairsPolicy::AllowQuads));
    assert!(is_mcr_winning_shape(&quad_hand));
    assert!(!can_form_winning_hand(&quad_hand));
}

#[test]
fn thirteen_singles_need_one_of_them_twice() {
    let mut hand = hand_of(&[
        m(1),
        m(9),
        p(1),
        p(9),
        Tile::Suit(Suit::Bamboo, 1),
        Tile::Suit(Suit::Bamboo, 9),
        Tile::Wind(Wind::East),
        Tile::Wind(Wind::South),
        Tile::Wind(Wind::West),
        Tile::Wind(Wind::North),
        Tile::Dragon(Dragon::White),
        Tile::Dragon(Dragon::Green),
        Tile::Dragon(Dragon::Red),
    ]);
    assert!(!is_kokushi_musou(&hand));
    hand.set_drawn_tile(Some(Tile::Wind(Wind::West)));
    assert!(is_kokushi_musou(&hand));
    assert!(can_form_winning_hand(&hand));
    hand.set_drawn_tile(Some(m(5)));
    assert!(!is_kokushi_musou(&hand));
}

#[test]
fn a_bonus_tile_among_the_concealed_tiles_spoils_the_hand() {
    let mut hand = hand_of(&[
        m(1),
        m(2),
        m(3),
        m(4),
        m(5),
        m(6),
        m(7),
        m(8),
        m(9),
        p(1),
        p(1),
        p(2),
        p(3),
    ]);
    hand.set_drawn_tile(Some(p(4)));
    assert!(is_standard_win_shape(&hand));
    hand.add_tile(Tile::Joker);
    assert!(!is_standard_win_shape(&hand));
}
