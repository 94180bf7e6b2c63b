use majiang_core::errors::MajiangError;
use majiang_core::tile::{Dragon, Flower, Suit, Tile, Wind};
use majiang_core::wall::builder::{build_tiles, create_shuffled_tiles, shuffle_tiles};
use majiang_core::wall::{DeadWall, DeadWallConfig, Wall, WallConfig};
use rand::rngs::StdRng;
use rand::SeedableRng;

fn sorted_ids(tiles: &[Tile]) -> Vec<u8> {
    let mut ids: Vec<u8> = tiles.iter().map(|t| t.to_id()).collect();
    ids.sort();
    ids
}

#[test]
fn the_tiles_of_a_wall_in_their_order() {
    let tiles = build_tiles(WallConfig::Custom {
        flowers: 2,
        with_joker: true,
        suit_sets: 1,
        honor_sets: 2,
    })
    .unwrap();
    assert_eq!(tiles.len(), 27 + 14 + 2 + 1);
    assert_eq!(tiles[0], Tile::Suit(Suit::Character, 1));
    assert_eq!(tiles[8], Tile::Suit(Suit::Character, 9));
    assert_eq!(tiles[9], Tile::Suit(Suit::Dot, 1));
    assert_eq!(tiles[26], Tile::Suit(Suit::Bamboo, 9));
    assert_eq!(tiles[27], Tile::Wind(Wind::East));
    assert_eq!(tiles[28], Tile::Wind(Wind::East));
    assert_eq!(tiles[29], Tile::Wind(Wind::South));
    assert_eq!(tiles[34], Tile::Wind(Wind::North));
    assert_eq!(tiles[35], Tile::Dragon(Dragon::Red));
    assert_eq!(tiles[37], Tile::Dragon(Dragon::Green));
    assert_eq!(tiles[40], Tile::Dragon(Dragon::White));
    assert_eq!(tiles[41], Tile::Flower(Flower::Spring));
    assert_eq!(tiles[42], Tile::Flower(Flower::Summer));
    assert_eq!(tiles[43], Tile::Joker);
    let twice = build_tiles(WallConfig::Custom {
        flowers: 0,
        with_joker: false,
        suit_sets: 2,
        honor_sets: 0,
    })
    .unwrap();
    assert_eq!(twice.len(), 54);
    assert_eq!(twice[9], Tile::Suit(Suit::Character, 1));
    assert_eq!(twice[18], Tile::Suit(Suit::Dot, 1));
    assert_eq!(WallConfig::default(), WallConfig::MCR);
}

#[test]
fn too_many_bonus_tiles_are_refused() {
    let config = WallConfig::Custom { flowers: 9, with_joker: false, suit_sets: 4, honor_sets: 4 };
    assert!(matches!(build_tiles(config), Err(MajiangError::ConfigurationError(_))));
    assert!(matches!(
        create_shuffled_tiles(config, Some(1)),
        Err(MajiangError::ConfigurationError(_))
    ));
    assert!(matches!(Wall::new(config, None, None), Err(MajiangError::ConfigurationError(_))));
}

#[test]
fn shuffling_reorders_and_keeps_every_tile() {
    let built = build_tiles(WallConfig::MCR).unwrap();
    let shuffled = create_shuffled_tiles(WallConfig::MCR, Some(7)).unwrap();
    assert_ne!(shuffled, built);
    assert_eq!(sorted_ids(&shuffled), sorted_ids(&built));
    let unseeded = create_shuffled_tiles(WallConfig::Riichi, None).unwrap();
    assert_eq!(sorted_ids(&unseeded), sorted_ids(&build_tiles(WallConfig::Riichi).unwrap()));
    let mut own = built.clone();
    let mut rng = StdRng::seed_from_u64(7);
    shuffle_tiles(&mut own, &mut rng);
    assert_eq!(own, shuffled);
}

#[test]
fn a_wall_too_small_for_its_dead_wall() {
    let config = WallConfig::Custom { flowers: 0, with_joker: false, suit_sets: 0, honor_sets: 1 };
    let made = Wall::new(config, Some(DeadWallConfig::Riichi { dora_indicators: 1, uradora_indicators: 1 }), Some(3));
    assert!(matches!(made, Err(MajiangError::NotEnoughTiles)));
    let exact = WallConfig::Custom { flowers: 0, with_joker: false, suit_sets: 0, honor_sets: 2 };
    let wall = Wall::new(exact, Some(DeadWallConfig::Riichi { dora_indicators: 1, uradora_indicators: 1 }), Some(3)).unwrap();
    assert_eq!(wall.remaining_tiles(), 0);
    assert!(wall.is_empty());
    assert_eq!(wall.dead_wall().unwrap().get_all_tiles().len(), 14);
}

#[test]
fn the_dead_wall_takes_the_end_of_the_tiles() {
    let mut tiles = build_tiles(WallConfig::Riichi).unwrap();
    let whole = tiles.clone();
    let mut dead = DeadWall::new(
        &mut tiles,
        DeadWallConfig::Riichi { dora_indicators: 2, uradora_indicators: 2 },
    )
    .unwrap();
    assert_eq!(tiles.len(), 122);
    assert_eq!(tiles[..], whole[..122]);
    let mut tail: Vec<Tile> = whole[122..].to_vec();
    tail.reverse();
    assert_eq!(dead.get_all_tiles(), &tail);
    assert_eq!(dead.remaining_replacement_tiles(), 13);
    assert_eq!(dead.get_dora_indicators().unwrap(), vec![tail[0]]);
    assert_eq!(dead.get_uradora_indicators().unwrap(), vec![tail[1], tail[3]]);
    assert_eq!(dead.reveal_next_dora_indicator().unwrap(), tail[2]);
    assert_eq!(dead.get_dora_indicators().unwrap(), vec![tail[0], tail[2]]);
    assert!(matches!(
        dead.reveal_next_dora_indicator(),
        Err(MajiangError::InvalidOperation(_))
    ));
    assert_eq!(dead.draw_replacement_tile().unwrap(), tail[13]);
    assert_eq!(dead.remaining_replacement_tiles(), 11);
    for _ in 0..11 {
        dead.draw_replacement_tile().unwrap();
    }
    assert_eq!(dead.get_all_tiles().len(), 2);
    assert!(matches!(dead.get_dora_indicators(), Err(MajiangError::InvalidOperation(_))));
    assert!(matches!(dead.get_uradora_indicators(), Err(MajiangError::InvalidOperation(_))));
    dead.draw_replacement_tile().unwrap();
    dead.draw_replacement_tile().unwrap();
    assert_eq!(dead.draw_replacement_tile(), Err(MajiangError::NotEnoughTiles));
    assert_eq!(dead.remaining_replacement_tiles(), 0);
}

#[test]
fn a_dead_wall_without_tiles() {
    let mut tiles = build_tiles(WallConfig::Riichi).unwrap();
    let mut dead = DeadWall::new(&mut tiles, DeadWallConfig::Absent).unwrap();
    assert_eq!(tiles.len(), 136);
    assert_eq!(dead.remaining_replacement_tiles(), 0);
    assert!(matches!(dead.draw_replacement_tile(), Err(MajiangError::InvalidOperation(_))));
    assert!(matches!(dead.get_dora_indicators(), Err(MajiangError::InvalidOperation(_))));
    assert!(matches!(dead.get_uradora_indicators(), Err(MajiangError::InvalidOperation(_))));
    assert!(matches!(
        dead.reveal_next_dora_indicator(),
        Err(MajiangError::InvalidOperation(_))
    ));
    let mut few: Vec<Tile> = vec![Tile::Joker; 15];
    assert!(matches!(
        DeadWall::new(&mut few, DeadWallConfig::Shanghai { replacement_count: 8 }),
        Err(MajiangError::NotEnoughTiles)
    ));
    assert_eq!(few.len(), 15);
    assert_eq!(DeadWallConfig::default(), DeadWallConfig::MCR { replacement_count: 8 });
    let mut shanghai = build_tiles(WallConfig::MCR).unwrap();
    let mut other = DeadWall::new(&mut shanghai, DeadWallConfig::Shanghai { replacement_count: 3 }).unwrap();
    assert_eq!(other.remaining_replacement_tiles(), 3);
    other.draw_replacement_tile().unwrap();
    assert_eq!(other.remaining_replacement_tiles(), 2);
}

#[test]
fn tiles_are_dealt_and_drawn_in_the_order_of_the_wall() {
    let mut wall = Wall::new(WallConfig::Riichi, None, Some(11)).unwrap();
    let all = wall.get_all_wall_tiles();
    assert_eq!(all.len(), 136);
    let hand = wall.deal_initial_hand(13).unwrap();
    assert_eq!(hand[..], all[..13]);
    wall.start_game();
    assert_eq!(wall.draw_tile().unwrap(), all[13]);
    assert_eq!(wall.get_all_wall_tiles()[..], all[14..]);
    assert!(matches!(wall.get_uradora_indicators(), Err(MajiangError::InvalidOperation(_))));
    assert!(matches!(wall.reveal_next_dora_indicator(), Err(MajiangError::InvalidOperation(_))));
    assert_eq!(wall.config(), WallConfig::Riichi);
}

#[test]
fn the_dead_wall_is_changed_in_place() {
    let mut wall = Wall::new(WallConfig::Riichi, Some(DeadWallConfig::Riichi { dora_indicators: 1, uradora_indicators: 1 }), Some(3)).unwrap();
    let before = wall.remaining_tiles();
    let last = *wall.dead_wall().unwrap().get_all_tiles().last().unwrap();
    let dead = wall.dead_wall_mut().unwrap();
    assert_eq!(dead.draw_replacement_tile(), Ok(last));
    assert_eq!(wall.dead_wall().unwrap().get_all_tiles().len(), 13);
    assert_eq!(wall.remaining_tiles(), before);
    assert_eq!(wall.drawn_count(), 0);
    let mut plain = Wall::new(WallConfig::Riichi, None, Some(3)).unwrap();
    assert!(plain.dead_wall_mut().is_none());
}
