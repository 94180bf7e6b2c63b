use majiang_core::tile::{Dragon, Flower, Suit, Tile, Wind};

fn man(rank: u8) -> Tile {
    Tile::new_suit(Suit::Character, rank).unwrap()
}

fn pin(rank: u8) -> Tile {
    Tile::new_suit(Suit::Dot, rank).unwrap()
}

fn sou(rank: u8) -> Tile {
    Tile::new_suit(Suit::Bamboo, rank).unwrap()
}

fn suit_of(tile: Tile) -> Option<Suit> {
    match tile {
        Tile::Suit(suit, _) => Some(suit),
        _ => None,
    }
}

fn wind_of(tile: Tile) -> Option<Wind> {
    match tile {
        Tile::Wind(wind) => Some(wind),
        _ => None,
    }
}

fn dragon_of(tile: Tile) -> Option<Dragon> {
    match tile {
        Tile::Dragon(dragon) => Some(dragon),
        _ => None,
    }
}

fn flower_of(tile: Tile) -> Option<Flower> {
    match tile {
        Tile::Flower(flower) => Some(flower),
        _ => None,
    }
}

#[test]
fn test_create_honor_tiles() {
    let east = Tile::Wind(Wind::East);
    assert_eq!(wind_of(east), Some(Wind::East));
    assert!(east.is_wind());
    assert!(east.is_honor());
    assert!(!east.is_red());

    let south = Tile::Wind(Wind::South);
    assert_eq!(wind_of(south), Some(Wind::South));
    assert!(south.is_wind());

    let west = Tile::Wind(Wind::West);
    assert_eq!(wind_of(west), Some(Wind::West));
    assert!(west.is_wind());

    let north = Tile::Wind(Wind::North);
    assert_eq!(wind_of(north), Some(Wind::North));
    assert!(north.is_wind());

    let white = Tile::Dragon(Dragon::White);
    assert_eq!(dragon_of(white), Some(Dragon::White));
    assert!(white.is_dragon());
    assert!(white.is_honor());
    assert!(!white.is_red());

    let green = Tile::Dragon(Dragon::Green);
    assert_eq!(dragon_of(green), Some(Dragon::Green));
    assert!(green.is_dragon());

    let red = Tile::Dragon(Dragon::Red);
    assert_eq!(dragon_of(red), Some(Dragon::Red));
    assert!(red.is_dragon());
}

#[test]
fn test_create_flower_tiles() {
    let spring = Tile::Flower(Flower::Spring);
    assert_eq!(flower_of(spring), Some(Flower::Spring));
    assert!(spring.is_flower());
    assert!(!spring.is_red());

    let plum = Tile::Flower(Flower::Plum);
    assert_eq!(flower_of(plum), Some(Flower::Plum));
    assert!(plum.is_flower());
}

#[test]
fn test_is_type_checks() {
    let m1 = man(1);
    let p5 = pin(5);
    let s9 = sou(9);
    let east = Tile::Wind(Wind::East);
    let white = Tile::Dragon(Dragon::White);
    let spring = Tile::Flower(Flower::Spring);
    let r5m = man(5);

    assert!(m1.is_suit() && suit_of(m1) == Some(Suit::Character));
    assert!(p5.is_suit() && suit_of(p5) == Some(Suit::Dot));
    assert!(s9.is_suit() && suit_of(s9) == Some(Suit::Bamboo));
    assert!(r5m.is_suit() && suit_of(r5m) == Some(Suit::Character));
    assert!(!east.is_suit());
    assert!(!white.is_suit());
    assert!(!spring.is_suit());

    assert!(east.is_honor() && east.is_wind() && !east.is_dragon());
    assert!(white.is_honor() && !white.is_wind() && white.is_dragon());
    assert!(!m1.is_honor());
    assert!(!spring.is_honor());

    assert!(spring.is_flower());
    assert!(!m1.is_flower());
    assert!(!east.is_flower());
}

#[test]
fn test_is_terminal_simple_honor() {
    let m1 = man(1);
    let m5 = man(5);
    let m9 = man(9);
    let east = Tile::Wind(Wind::East);
    let white = Tile::Dragon(Dragon::White);
    let r5m = man(5);

    assert!(m1.is_terminal());
    assert!(!m5.is_terminal());
    assert!(m9.is_terminal());
    assert!(!east.is_terminal());
    assert!(!white.is_terminal());
    assert!(!r5m.is_terminal());

    assert!(!m1.is_simple());
    assert!(m5.is_simple());
    assert!(!m9.is_simple());
    assert!(!east.is_simple());
    assert!(!white.is_simple());
    assert!(r5m.is_simple());

    assert!(m1.is_terminal_or_honor());
    assert!(!m5.is_terminal_or_honor());
    assert!(m9.is_terminal_or_honor());
    assert!(east.is_terminal_or_honor());
    assert!(white.is_terminal_or_honor());
    assert!(!r5m.is_terminal_or_honor());
}
