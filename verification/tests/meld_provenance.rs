use majiang_core::errors::MajiangError;
use majiang_core::game::utils::example_game_util;
use majiang_core::hand::Hand;
use majiang_core::meld::utils::{validate_chi, validate_kan, validate_pon};
use majiang_core::meld::{KanType, Meld, MeldSource, MeldType};
use majiang_core::tile::{Suit, Tile, Wind};

fn m(n: u8) -> Tile {
    Tile::Suit(Suit::Character, n)
}

fn message(result: Result<(), MajiangError>) -> String {
    match result {
        Err(MajiangError::InvalidMeld(text)) => text,
        other => panic!("no meld error: {:?}", other),
    }
}

#[test]
fn every_tile_of_a_quad_has_its_provenance() {
    let east = Tile::Wind(Wind::East);
    let tiles = [east; 4];
    let two = [MeldSource::Player(1), MeldSource::SelfDrawn];
    assert_eq!(message(validate_kan(&tiles, KanType::Added, &two)), "杠的每张牌必须有一个来源");
    assert_eq!(message(validate_kan(&tiles, KanType::Open, &two)), "杠的每张牌必须有一个来源");
    assert_eq!(message(validate_kan(&tiles, KanType::Closed, &[])), "杠的每张牌必须有一个来源");
    let five = [MeldSource::SelfDrawn; 5];
    assert_eq!(message(validate_kan(&tiles, KanType::Closed, &five)), "杠的每张牌必须有一个来源");
    assert!(validate_kan(&tiles, KanType::Closed, &[MeldSource::SelfDrawn; 4]).is_ok());
}

#[test]
fn an_added_quad_is_a_claimed_triple_and_a_tile_of_the_owner() {
    let tiles = [m(7); 4];
    let own = MeldSource::SelfDrawn;
    let other = MeldSource::Player(1);
    assert!(validate_kan(&tiles, KanType::Added, &[other, own, own, own]).is_ok());
    assert!(validate_kan(&tiles, KanType::Added, &[own, other, own, own]).is_ok());
    assert!(validate_kan(&tiles, KanType::Added, &[own, own, other, own]).is_ok());
    assert!(validate_kan(&tiles, KanType::Added, &[other, other, other, own]).is_ok());
    assert_eq!(
        message(validate_kan(&tiles, KanType::Added, &[own, own, own, other])),
        "加杠的牌必须来自自己"
    );
    assert_eq!(
        message(validate_kan(&tiles, KanType::Added, &[other, own, own, other])),
        "加杠的牌必须来自自己"
    );
    assert_eq!(
        message(validate_kan(&tiles, KanType::Added, &[own, own, own, own])),
        "加杠需要至少有一张牌来自其他玩家"
    );
    assert!(Meld::new(tiles.to_vec(), MeldType::Kan(KanType::Added), vec![own, own, own, other]).is_err());
}

#[test]
fn a_meld_of_tiles_that_are_none_is_refused() {
    let none = m(0);
    assert_eq!(message(validate_pon(&[none; 3])), "副露中的牌不合法");
    assert_eq!(message(validate_chi(&[m(0), m(1), m(2)])), "副露中的牌不合法");
    assert_eq!(message(validate_chi(&[m(8), m(9), m(10)])), "副露中的牌不合法");
    assert_eq!(
        message(validate_kan(&[m(12); 4], KanType::Closed, &[MeldSource::SelfDrawn; 4])),
        "副露中的牌不合法"
    );
    assert_eq!(message(validate_pon(&[none; 2])), "碰必须由三张牌组成");
    let pon = Meld::new_pon(none);
    assert!(!pon.is_well_formed());
    assert!(Meld::new_pon(m(1)).is_well_formed());
    assert!(!Meld::new_kan(none).is_well_formed());
    assert!(Meld::new_kan(m(9)).is_well_formed());
    let mut hand = Hand::new();
    assert!(!hand.attach_meld(pon.clone()));
    assert!(matches!(hand.add_meld(pon), Err(MajiangError::InvalidMeld(_))));
    assert!(hand.get_melds().is_empty());
    assert_eq!(hand.tile_count(), 0);
    assert!(Meld::new(vec![none; 3], MeldType::Pon, vec![MeldSource::SelfDrawn; 3]).is_err());
}

#[test]
fn the_key_tile_of_a_meld_that_holds_it() {
    let short = Meld { tiles: vec![m(5)], meld_type: MeldType::Pon, sources: vec![] };
    assert_eq!(short.get_key_tile(), m(5));
    let pair = Meld { tiles: vec![m(5), m(6)], meld_type: MeldType::Chi, sources: vec![] };
    assert_eq!(pair.get_key_tile(), m(6));
}

#[test]
fn the_sample_helper_says_yes() {
    assert!(example_game_util());
}

#[test]
fn a_promoted_quad_carries_the_provenance_of_its_triple() {
    let own = MeldSource::SelfDrawn;
    let mut hand = Hand::new();
    for _ in 0..3 {
        hand.add_tile(m(6));
    }
    let pon = Meld::new(vec![m(6); 3], MeldType::Pon, vec![own, MeldSource::Player(2), own]).unwrap();
    hand.add_meld(pon.clone()).unwrap();
    assert_eq!(hand.count_of(&m(6)), 1);
    let from_elsewhere =
        Meld::new(vec![m(6); 4], MeldType::Kan(KanType::Added), vec![MeldSource::Player(1), own, own, own])
            .unwrap();
    assert!(matches!(hand.add_meld(from_elsewhere), Err(MajiangError::InvalidMeld(_))));
    let other_place =
        Meld::new(vec![m(6); 4], MeldType::Kan(KanType::Added), vec![MeldSource::Player(2), own, own, own])
            .unwrap();
    assert!(matches!(hand.add_meld(other_place), Err(MajiangError::InvalidMeld(_))));
    assert_eq!(hand.get_melds().len(), 1);
    assert_eq!(hand.get_melds()[0], pon);
    assert_eq!(hand.count_of(&m(6)), 1);
    let fitting =
        Meld::new(vec![m(6); 4], MeldType::Kan(KanType::Added), vec![own, MeldSource::Player(2), own, own])
            .unwrap();
    assert_eq!(hand.add_meld(fitting.clone()), Ok(()));
    assert_eq!(hand.get_melds().len(), 1);
    assert_eq!(hand.get_melds()[0], fitting);
    assert_eq!(hand.count_of(&m(6)), 0);
}
