use majiang_core::errors::MajiangError;
use majiang_core::game::context::{calculate_dora, GameContext};
use majiang_core::hand::Hand;
use majiang_core::meld::{Meld, MeldSource, MeldType};
use majiang_core::player::WindDirection;
use majiang_core::rules::common::win_patterns::PairsPolicy;
use majiang_core::rules::facts::gather_facts;
use majiang_core::rules::mcr::flower::calculate_mcr_flower_score;
use majiang_core::rules::mcr::scoring::calculate_mcr_score;
use majiang_core::rules::mcr::win_check::can_win_mcr;
use majiang_core::rules::mcr::McrRuleSet;
use majiang_core::rules::riichi::riichi_specific::{check_riichi_conditions, is_tenpai};
use majiang_core::rules::riichi::score::{
    calculate_base_points, calculate_final_score, calculate_fu, calculate_riichi_score,
    calculate_yakuman_score, is_yakuman, settle, MAX_BASE_POINTS, MAX_HAN,
};
use majiang_core::rules::riichi::yaku::calculate_yaku;
use majiang_core::rules::riichi::RiichiRuleSet;
use majiang_core::rules::shanghai::flower::calculate_flower_fan;
use majiang_core::rules::shanghai::scoring::{
    calculate_final_shanghai_points, calculate_shanghai_score,
};
use majiang_core::rules::shanghai::win_check::can_win_shanghai;
use majiang_core::rules::shanghai::ShanghaiRuleSet;
use majiang_core::rules::{score, RuleSet, RuleVariant, Transfer, Yaku};
use majiang_core::tile::{Dragon, Flower, Suit, Tile, Wind};

fn m(n: u8) -> Tile {
    Tile::Suit(Suit::Character, n)
}

fn p(n: u8) -> Tile {
    Tile::Suit(Suit::Dot, n)
}

fn s(n: u8) -> Tile {
    Tile::Suit(Suit::Bamboo, n)
}

fn hand_of(tiles: &[Tile]) -> Hand {
    let mut hand = Hand::new();
    for tile in tiles {
        hand.add_tile(*tile);
    }
    hand
}

fn context(is_tsumo: bool, dealer: bool) -> GameContext {
    GameContext {
        player_wind: WindDirection::South,
        round_wind: WindDirection::East,
        dora: Vec::new(),
        current_turn: 1,
        dealer_index: if dealer { 1 } else { 0 },
        is_tsumo,
        is_riichi: false,
        score: 25000,
        wall_remaining: 60,
    }
}

fn simples() -> Hand {
    hand_of(&[m(2), m(3), m(4), m(4), m(5), m(6), m(6), m(7), m(8), p(2), p(2), s(3), s(4), s(5)])
}

fn flush() -> Hand {
    hand_of(&[m(1), m(2), m(3), m(3), m(4), m(5), m(5), m(6), m(7), m(7), m(8), m(9), m(9), m(9)])
}

fn names(list: &[Yaku]) -> Vec<(String, u32)> {
    list.iter().map(|y| (y.name.clone(), y.han)).collect()
}

#[test]
fn two_variants_score_the_same_hand_differently() {
    let hand = simples();
    let on_discard = context(false, false);
    let riichi = score(&hand, &on_discard, RuleVariant::Riichi).unwrap().unwrap();
    let shanghai = score(&hand, &on_discard, RuleVariant::Shanghai).unwrap().unwrap();
    let mcr = score(&hand, &on_discard, RuleVariant::Mcr).unwrap();
    assert_eq!(names(&riichi.yaku), vec![("断幺九".to_string(), 1)]);
    assert_eq!(riichi.han, 1);
    assert_eq!(riichi.fu, 30);
    assert_eq!(riichi.score, 1000);
    assert_eq!(
        riichi.payment,
        Transfer { total: 1000, from_discarder: 1000, from_dealer: 0, from_each_other: 0 }
    );
    assert_eq!(names(&shanghai.yaku), vec![("门清".to_string(), 1)]);
    assert_eq!(shanghai.han, 1);
    assert_eq!(shanghai.score, 1);
    assert_ne!(riichi.score, shanghai.score);
    assert!(mcr.is_none());
}

#[test]
fn a_win_by_draw_is_paid_by_all() {
    let hand = simples();
    let by_draw = context(true, false);
    let riichi = score(&hand, &by_draw, RuleVariant::Riichi).unwrap().unwrap();
    assert_eq!(
        names(&riichi.yaku),
        vec![("门前清自摸和".to_string(), 1), ("断幺九".to_string(), 1)]
    );
    assert_eq!(riichi.han, 2);
    assert_eq!(riichi.fu, 30);
    assert_eq!(riichi.score, 2000);
    assert_eq!(
        riichi.payment,
        Transfer { total: 2000, from_discarder: 0, from_dealer: 1000, from_each_other: 500 }
    );
    let shanghai = score(&hand, &by_draw, RuleVariant::Shanghai).unwrap().unwrap();
    assert_eq!(names(&shanghai.yaku), vec![("门清".to_string(), 1), ("自摸".to_string(), 1)]);
    assert_eq!(shanghai.score, 6);
    assert_eq!(
        shanghai.payment,
        Transfer { total: 6, from_discarder: 0, from_dealer: 0, from_each_other: 2 }
    );
    let dealer = score(&hand, &context(false, true), RuleVariant::Riichi).unwrap().unwrap();
    assert_eq!(dealer.score, 1500);
}

#[test]
fn a_flush_under_the_three_variants() {
    let hand = flush();
    let on_discard = context(false, false);
    let riichi = score(&hand, &on_discard, RuleVariant::Riichi).unwrap().unwrap();
    assert_eq!(names(&riichi.yaku), vec![("清一色".to_string(), 6)]);
    assert_eq!(riichi.score, 12000);
    let mcr = score(&hand, &on_discard, RuleVariant::Mcr).unwrap().unwrap();
    assert_eq!(names(&mcr.yaku), vec![("清一色".to_string(), 24), ("门前清".to_string(), 2)]);
    assert_eq!(mcr.score, 26);
    assert_eq!(mcr.han, 26);
    assert_eq!(mcr.fu, 0);
    assert_eq!(
        mcr.payment,
        Transfer { total: 50, from_discarder: 34, from_dealer: 0, from_each_other: 8 }
    );
    let mcr_draw = score(&hand, &context(true, false), RuleVariant::Mcr).unwrap().unwrap();
    assert_eq!(names(&mcr_draw.yaku), vec![("清一色".to_string(), 24), ("不求人".to_string(), 4)]);
    assert_eq!(
        mcr_draw.payment,
        Transfer { total: 108, from_discarder: 0, from_dealer: 0, from_each_other: 36 }
    );
    let shanghai = score(&hand, &on_discard, RuleVariant::Shanghai).unwrap().unwrap();
    assert_eq!(names(&shanghai.yaku), vec![("清一色".to_string(), 4), ("门清".to_string(), 1)]);
    assert_eq!(shanghai.han, 5);
    assert_eq!(shanghai.score, 8);
}

#[test]
fn bonus_tiles_add_flat_points() {
    let mut hand = flush();
    hand.add_flower(Tile::Flower(Flower::Spring));
    hand.add_flower(Tile::Flower(Flower::Plum));
    assert_eq!(calculate_mcr_flower_score(&hand), 2);
    let on_discard = context(false, false);
    assert_eq!(calculate_flower_fan(&hand, &on_discard), 2);
    let mcr = score(&hand, &on_discard, RuleVariant::Mcr).unwrap().unwrap();
    assert_eq!(
        names(&mcr.yaku),
        vec![("清一色".to_string(), 24), ("门前清".to_string(), 2), ("花牌".to_string(), 2)]
    );
    assert_eq!(mcr.score, 28);
    assert_eq!(mcr.han, 26);
    assert_eq!(mcr.payment.total, 52);
    let shanghai = score(&hand, &on_discard, RuleVariant::Shanghai).unwrap().unwrap();
    assert_eq!(shanghai.han, 5);
    assert_eq!(shanghai.score, 10);
    assert_eq!(shanghai.payment.from_discarder, 10);
    let riichi = score(&hand, &on_discard, RuleVariant::Riichi).unwrap().unwrap();
    assert_eq!(riichi.score, 12000);

    let mut low = simples();
    low.add_flower(Tile::Flower(Flower::Spring));
    low.add_flower(Tile::Flower(Flower::Summer));
    low.add_flower(Tile::Flower(Flower::Autumn));
    low.add_flower(Tile::Flower(Flower::Winter));
    assert!(score(&low, &on_discard, RuleVariant::Mcr).unwrap().is_none());
    assert!(!can_win_mcr(&low, &on_discard, false));
}

#[test]
fn a_hand_without_a_category_does_not_win_where_one_is_needed() {
    let hand = hand_of(&[
        m(1),
        m(2),
        m(3),
        m(4),
        m(5),
        m(6),
        p(7),
        p(8),
        p(9),
        p(1),
        p(1),
        s(2),
        s(3),
        s(4),
    ]);
    let mut on_discard = context(false, false);
    on_discard.dora = calculate_dora(&[m(1)]);
    assert_eq!(on_discard.dora, vec![m(2)]);
    assert!(score(&hand, &on_discard, RuleVariant::Riichi).unwrap().is_none());
    let rules = RiichiRuleSet;
    assert!(!rules.can_win(&hand, &on_discard, false));
    assert!(rules.calculate_score(&hand, &on_discard, s(4), false).is_none());
    assert!(rules.can_win(&hand, &on_discard, true));
    let by_draw = rules.calculate_score(&hand, &on_discard, s(4), true).unwrap();
    assert_eq!(
        names(&by_draw.yaku),
        vec![("门前清自摸和".to_string(), 1), ("宝牌".to_string(), 1)]
    );
    assert_eq!(by_draw.han, 2);
    assert!(rules.calculate_score(&hand, &on_discard, s(9), true).is_none());
    assert!(can_win_shanghai(&hand, &on_discard));
    assert!(ShanghaiRuleSet.can_win(&hand, &on_discard, false));
}

#[test]
fn the_thirteen_singles_are_a_limit_hand() {
    let hand = hand_of(&[
        m(1),
        m(9),
        p(1),
        p(9),
        s(1),
        s(9),
        Tile::Wind(Wind::East),
        Tile::Wind(Wind::South),
        Tile::Wind(Wind::West),
        Tile::Wind(Wind::North),
        Tile::Dragon(Dragon::White),
        Tile::Dragon(Dragon::Green),
        Tile::Dragon(Dragon::Red),
        Tile::Dragon(Dragon::Red),
    ]);
    let mut by_draw = context(true, false);
    by_draw.dora = vec![Tile::Dragon(Dragon::Red)];
    let riichi = score(&hand, &by_draw, RuleVariant::Riichi).unwrap().unwrap();
    assert_eq!(names(&riichi.yaku), vec![("国士无双".to_string(), 13)]);
    assert_eq!(riichi.han, 13);
    assert_eq!(riichi.fu, 0);
    assert_eq!(riichi.score, 32000);
    assert_eq!(
        riichi.payment,
        Transfer { total: 32000, from_discarder: 0, from_dealer: 16000, from_each_other: 8000 }
    );
    let dealer = score(&hand, &context(false, true), RuleVariant::Riichi).unwrap().unwrap();
    assert_eq!(dealer.score, 48000);
    assert_eq!(dealer.payment.from_discarder, 48000);
    let mcr = score(&hand, &context(false, false), RuleVariant::Mcr).unwrap().unwrap();
    assert_eq!(names(&mcr.yaku), vec![("十三幺".to_string(), 88)]);
    assert_eq!(mcr.payment.total, 112);
    assert!(score(&hand, &by_draw, RuleVariant::Shanghai).unwrap().is_none());
}

#[test]
fn honor_triples_and_an_open_hand() {
    let red = Tile::Dragon(Dragon::Red);
    let east = Tile::Wind(Wind::East);
    let mut hand =
        hand_of(&[m(1), m(2), m(3), p(4), p(5), p(6), p(2), p(2), east, east, east, red, red]);
    hand.add_meld(
        Meld::new(
            vec![red; 3],
            MeldType::Pon,
            vec![MeldSource::Player(0), MeldSource::SelfDrawn, MeldSource::SelfDrawn],
        )
        .unwrap(),
    )
    .unwrap();
    assert_eq!(hand.tile_count(), 14);
    let on_discard = context(false, false);
    let facts = gather_facts(&hand, &on_discard, false, PairsPolicy::Distinct);
    assert!(facts.standard);
    assert!(!facts.menzen);
    assert_eq!(facts.dragon_triplets, 1);
    assert!(facts.round_wind_triplet);
    assert!(!facts.seat_wind_triplet);
    assert!(!facts.all_triplets);
    assert!(!facts.half_flush);
    assert_eq!(calculate_fu(&facts), 20);
    let riichi = score(&hand, &on_discard, RuleVariant::Riichi).unwrap().unwrap();
    assert_eq!(
        names(&riichi.yaku),
        vec![("役牌:场风".to_string(), 1), ("役牌:三元牌".to_string(), 1)]
    );
    assert_eq!(riichi.fu, 20);
    assert_eq!(riichi.score, 1300);
    let shanghai = score(&hand, &on_discard, RuleVariant::Shanghai).unwrap().unwrap();
    assert_eq!(names(&shanghai.yaku), vec![("底和".to_string(), 1)]);
    assert_eq!(shanghai.score, 1);
    let mcr = score(&hand, &on_discard, RuleVariant::Mcr).unwrap();
    assert!(mcr.is_none());
    let by_draw = calculate_mcr_score(&hand, &on_discard, p(2), true);
    assert!(by_draw.is_none());
}

#[test]
fn triples_only_and_half_a_flush() {
    let white = Tile::Dragon(Dragon::White);
    let hand = hand_of(&[
        m(1),
        m(1),
        m(1),
        m(5),
        m(5),
        m(5),
        m(9),
        m(9),
        m(9),
        white,
        white,
        white,
        Tile::Wind(Wind::South),
        Tile::Wind(Wind::South),
    ]);
    let on_discard = context(false, false);
    let facts = gather_facts(&hand, &on_discard, false, PairsPolicy::AllowQuads);
    assert!(facts.all_triplets);
    assert!(facts.half_flush);
    assert!(!facts.full_flush);
    assert!(!facts.all_simples);
    assert_eq!(facts.dragon_triplets, 1);
    let mcr = score(&hand, &on_discard, RuleVariant::Mcr).unwrap().unwrap();
    assert_eq!(
        names(&mcr.yaku),
        vec![
            ("碰碰和".to_string(), 6),
            ("混一色".to_string(), 6),
            ("箭刻".to_string(), 2),
            ("门前清".to_string(), 2)
        ]
    );
    assert_eq!(mcr.score, 16);
    let riichi = calculate_yaku(&hand, &on_discard, m(1), false);
    assert_eq!(
        names(&riichi),
        vec![
            ("役牌:三元牌".to_string(), 1),
            ("对对和".to_string(), 2),
            ("混一色".to_string(), 3)
        ]
    );
    let scored = calculate_riichi_score(&hand, &on_discard, m(1), false, riichi).unwrap();
    assert_eq!(scored.han, 6);
    assert_eq!(scored.score, 12000);
    let shanghai = calculate_shanghai_score(&hand, &on_discard, m(1), true).unwrap();
    assert_eq!(
        names(&shanghai.yaku),
        vec![
            ("碰碰和".to_string(), 2),
            ("混一色".to_string(), 2),
            ("门清".to_string(), 1),
            ("自摸".to_string(), 1)
        ]
    );
    assert_eq!(shanghai.han, 6);
    assert_eq!(shanghai.score, 30);
}

#[test]
fn seven_pairs_have_their_own_base_measure() {
    let mut tiles = Vec::new();
    for n in [2u8, 3, 4, 5, 6, 7, 8] {
        tiles.push(p(n));
        tiles.push(p(n));
    }
    let hand = hand_of(&tiles);
    let on_discard = context(false, false);
    let riichi = score(&hand, &on_discard, RuleVariant::Riichi).unwrap().unwrap();
    assert_eq!(
        names(&riichi.yaku),
        vec![("断幺九".to_string(), 1), ("七对子".to_string(), 2), ("清一色".to_string(), 6)]
    );
    assert_eq!(riichi.fu, 25);
    assert_eq!(riichi.han, 9);
    assert_eq!(riichi.score, 16000);
}

#[test]
fn a_hand_of_the_wrong_size_is_malformed() {
    let mut hand = simples();
    let on_discard = context(false, false);
    assert!(hand.remove_tile(&s(5)));
    assert!(matches!(
        score(&hand, &on_discard, RuleVariant::Riichi),
        Err(MajiangError::InvalidWinningHand(_))
    ));
    hand.add_tile(s(5));
    hand.add_tile(s(5));
    assert!(matches!(
        score(&hand, &on_discard, RuleVariant::Mcr),
        Err(MajiangError::InvalidWinningHand(_))
    ));
    let not_complete = hand_of(&[
        m(1),
        m(3),
        m(5),
        m(7),
        m(9),
        p(1),
        p(3),
        p(5),
        p(7),
        p(9),
        s(1),
        s(3),
        s(5),
        s(7),
    ]);
    assert!(score(&not_complete, &on_discard, RuleVariant::Shanghai).unwrap().is_none());
    assert!(score(&not_complete, &on_discard, RuleVariant::Riichi).unwrap().is_none());
}

#[test]
fn points_from_base_measure_and_multiplier() {
    assert_eq!(calculate_base_points(1, 30), 240);
    assert_eq!(calculate_base_points(3, 30), 960);
    assert_eq!(calculate_base_points(4, 40), 2000);
    assert_eq!(calculate_base_points(5, 20), 2000);
    assert_eq!(calculate_base_points(0, 20), 80);
    assert_eq!(calculate_base_points(6, 30), 3000);
    assert_eq!(calculate_base_points(7, 30), 3000);
    assert_eq!(calculate_base_points(8, 30), 4000);
    assert_eq!(calculate_base_points(10, 30), 4000);
    assert_eq!(calculate_base_points(11, 30), 6000);
    assert_eq!(calculate_base_points(12, 30), 6000);
    assert_eq!(calculate_base_points(13, 30), 8000);
    assert_eq!(calculate_final_score(960, false, false), 3900);
    assert_eq!(calculate_final_score(960, true, false), 5800);
    assert_eq!(calculate_final_score(960, true, true), 6000);
    assert_eq!(calculate_final_score(960, false, true), 4000);
    assert_eq!(
        settle(960, false, true),
        Transfer { total: 4000, from_discarder: 0, from_dealer: 2000, from_each_other: 1000 }
    );
    assert_eq!(
        settle(960, true, true),
        Transfer { total: 6000, from_discarder: 0, from_dealer: 0, from_each_other: 2000 }
    );
    assert_eq!(calculate_yakuman_score(true, false, 13), 48000);
    assert_eq!(calculate_yakuman_score(false, true, 26), 64000);
    assert_eq!(calculate_yakuman_score(false, true, 12), 0);
    assert!(is_yakuman(&[Yaku { name: "x".to_string(), han: 13 }]));
    assert!(!is_yakuman(&[Yaku { name: "x".to_string(), han: 12 }]));
    assert_eq!(calculate_final_shanghai_points(0, false), 0);
    assert_eq!(calculate_final_shanghai_points(1, false), 1);
    assert_eq!(calculate_final_shanghai_points(3, true), 12);
    assert_eq!(calculate_final_shanghai_points(4, false), 6);
    assert_eq!(calculate_final_shanghai_points(6, false), 10);
    assert_eq!(calculate_final_shanghai_points(7, false), 12);
    assert_eq!(calculate_final_shanghai_points(8, false), 15);
    assert_eq!(calculate_final_shanghai_points(20, true), 45);
}

#[test]
fn indicators_point_to_the_next_tile() {
    let indicators = [
        m(9),
        p(3),
        Tile::Wind(Wind::North),
        Tile::Wind(Wind::East),
        Tile::Dragon(Dragon::Red),
        Tile::Dragon(Dragon::White),
        Tile::Flower(Flower::Plum),
        Tile::Joker,
    ];
    assert_eq!(
        calculate_dora(&indicators),
        vec![
            m(1),
            p(4),
            Tile::Wind(Wind::East),
            Tile::Wind(Wind::South),
            Tile::Dragon(Dragon::White),
            Tile::Dragon(Dragon::Green),
            Tile::Flower(Flower::Plum),
            Tile::Joker
        ]
    );
    let made = GameContext::new(WindDirection::West, WindDirection::South, &[s(1)], 2, 2);
    assert_eq!(made.dora, vec![s(2)]);
    assert!(made.is_dealer());
    assert_eq!(made.current_turn(), 2);
    assert_eq!(made.dealer_index(), 2);
}

#[test]
fn declaring_ready() {
    let hand = hand_of(&[
        m(1),
        m(2),
        m(3),
        m(4),
        m(5),
        m(6),
        m(7),
        m(8),
        m(9),
        p(1),
        p(1),
        p(2),
        p(3),
    ]);
    let mut ready = context(false, false);
    assert!(is_tenpai(&hand));
    assert!(check_riichi_conditions(&hand, &ready));
    assert!(RiichiRuleSet.can_riichi(&hand, &ready));
    assert!(!McrRuleSet.can_riichi(&hand, &ready));
    assert!(!ShanghaiRuleSet.can_riichi(&hand, &ready));
    ready.wall_remaining = 3;
    assert!(!check_riichi_conditions(&hand, &ready));
    ready.wall_remaining = 4;
    ready.score = 999;
    assert!(!check_riichi_conditions(&hand, &ready));
    ready.score = 1000;
    assert!(check_riichi_conditions(&hand, &ready));
    ready.is_riichi = true;
    assert!(!check_riichi_conditions(&hand, &ready));
    let far =
        hand_of(&[m(1), m(4), m(7), p(1), p(4), p(7), s(1), s(4), s(7), s(9), p(9), m(9), p(5)]);
    assert!(!is_tenpai(&far));
    assert!(!check_riichi_conditions(&far, &context(false, false)));
    let mut declared = context(true, false);
    declared.is_riichi = true;
    let mut won = hand.duplicate();
    won.set_drawn_tile(Some(p(4)));
    let scored = RiichiRuleSet.calculate_score(&won, &declared, p(4), true).unwrap();
    assert_eq!(
        names(&scored.yaku),
        vec![("立直".to_string(), 1), ("门前清自摸和".to_string(), 1)]
    );
}

#[test]
fn claims_under_the_rule_sets() {
    let hand = hand_of(&[m(1), m(2), m(4), m(5), m(5), m(5), p(7), p(7)]);
    let calm = context(false, false);
    let runs = RiichiRuleSet.can_chi(&hand, m(3), &calm);
    assert_eq!(runs, vec![(m(1), m(2), m(3)), (m(2), m(3), m(4)), (m(3), m(4), m(5))]);
    assert_eq!(McrRuleSet.can_chi(&hand, m(6), &calm), vec![(m(4), m(5), m(6))]);
    assert!(ShanghaiRuleSet.can_chi(&hand, p(1), &calm).is_empty());
    assert!(RiichiRuleSet.can_pon(&hand, p(7), &calm));
    assert!(!RiichiRuleSet.can_pon(&hand, m(4), &calm));
    assert!(McrRuleSet.can_kan(&hand, m(5), true, &calm));
    assert!(!McrRuleSet.can_kan(&hand, m(5), false, &calm));
    assert!(!ShanghaiRuleSet.can_kan(&hand, p(7), true, &calm));
    let mut declared = context(false, false);
    declared.is_riichi = true;
    assert!(RiichiRuleSet.can_chi(&hand, m(3), &declared).is_empty());
    assert!(!RiichiRuleSet.can_pon(&hand, p(7), &declared));
    assert!(!RiichiRuleSet.can_kan(&hand, m(5), true, &declared));
    assert_eq!(RiichiRuleSet.name(), "Riichi Mahjong");
    assert_eq!(McrRuleSet.name(), "Mahjong Competition Rules (MCR)");
    assert_eq!(ShanghaiRuleSet.name(), "Shanghai Mahjong");
    let melds = majiang_core::rules::claims::legal_melds_with(&hand, m(5));
    assert_eq!(melds, vec![vec![m(5), m(5), m(5)], vec![m(5), m(5), m(5), m(5)]]);
    let more = majiang_core::rules::claims::legal_melds_with(&hand, m(3));
    assert_eq!(more.len(), 3);
    let mut with_drawn = hand.duplicate();
    with_drawn.set_drawn_tile(Some(m(5)));
    assert!(McrRuleSet.can_kan(&with_drawn, m(5), false, &calm));
}

fn total_under<R: RuleSet>(rules: &R, hand: &Hand, context: &GameContext, win_tile: Tile) -> Option<i32> {
    if !rules.can_win(hand, context, context.is_tsumo) {
        return None;
    }
    rules.calculate_score(hand, context, win_tile, context.is_tsumo).map(|scored| scored.score)
}

#[test]
fn one_interface_three_variants() {
    let hand = flush();
    let on_discard = context(false, false);
    assert_eq!(total_under(&RiichiRuleSet, &hand, &on_discard, m(9)), Some(12000));
    assert_eq!(total_under(&McrRuleSet, &hand, &on_discard, m(9)), Some(26));
    assert_eq!(total_under(&ShanghaiRuleSet, &hand, &on_discard, m(9)), Some(8));
    let plain = simples();
    assert_eq!(total_under(&RiichiRuleSet, &plain, &on_discard, s(5)), Some(1000));
    assert_eq!(total_under(&McrRuleSet, &plain, &on_discard, s(5)), None);
    assert_eq!(total_under(&ShanghaiRuleSet, &plain, &on_discard, s(5)), Some(1));
    assert_eq!(total_under(&ShanghaiRuleSet, &plain, &on_discard, s(9)), None);
}

#[test]
fn payments_are_rounded_for_any_base_points() {
    assert_eq!(calculate_final_score(480, false, false), 2000);
    assert_eq!(calculate_final_score(480, true, false), 2900);
    assert_eq!(calculate_final_score(640, false, true), 2700);
    assert_eq!(calculate_final_score(0, true, true), 0);
    assert_eq!(calculate_final_score(-150, false, false), -500);
    assert_eq!(calculate_final_score(-150, true, true), -600);
    assert_eq!(calculate_final_score(-1, false, true), 0);
    assert_eq!(calculate_final_score(MAX_BASE_POINTS, true, false), 2_147_483_400);
    assert_eq!(calculate_final_score(MAX_BASE_POINTS, true, true), 2_147_483_400);
    assert_eq!(calculate_final_score(-MAX_BASE_POINTS, true, false), -2_147_483_200);
    let paid = settle(-150, false, true);
    assert_eq!(paid.from_dealer, -200);
    assert_eq!(paid.from_each_other, 0);
    assert_eq!(paid.total, -200);
    assert_eq!(calculate_yakuman_score(true, false, MAX_HAN), 48000 * 44739);
}
