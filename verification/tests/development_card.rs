use catan::utils::development_card::{DevelopmentCard, DevelopmentCards};

#[test]
fn test_development_card_to_u8() {
    assert_eq!(DevelopmentCard::Knight.to_u8(), 0);
    assert_eq!(DevelopmentCard::RoadBuilding.to_u8(), 1);
    assert_eq!(DevelopmentCard::YearOfPlenty.to_u8(), 2);
    assert_eq!(DevelopmentCard::Monopole.to_u8(), 3);
    assert_eq!(DevelopmentCard::VictoryPoint.to_u8(), 4);
}

#[test]
fn test_development_card_to_usize() {
    assert_eq!(DevelopmentCard::Knight.to_usize(), 0);
    assert_eq!(DevelopmentCard::RoadBuilding.to_usize(), 1);
    assert_eq!(DevelopmentCard::YearOfPlenty.to_usize(), 2);
    assert_eq!(DevelopmentCard::Monopole.to_usize(), 3);
    assert_eq!(DevelopmentCard::VictoryPoint.to_usize(), 4);
}

#[test]
fn test_development_cards_new() {
    let cards = DevelopmentCards::new();
    assert_eq!(cards.knight, 0);
    assert_eq!(cards.road_building, 0);
    assert_eq!(cards.year_of_plenty, 0);
    assert_eq!(cards.monopole, 0);
    assert_eq!(cards.victory_point, 0);
}

#[test]
fn test_development_cards_total() {
    let mut cards = DevelopmentCards::new();
    assert_eq!(cards.total(), 0);

    cards.knight = 5;
    cards.road_building = 2;
    cards.year_of_plenty = 2;
    cards.monopole = 2;
    cards.victory_point = 5;
    assert_eq!(cards.total(), 16);
}

#[test]
fn test_development_cards_clear() {
    let mut cards = DevelopmentCards::new();
    cards.knight = 5;
    cards.road_building = 2;
    cards.year_of_plenty = 2;
    cards.monopole = 2;
    cards.victory_point = 5;

    cards.clear();

    assert_eq!(cards.knight, 0);
    assert_eq!(cards.road_building, 0);
    assert_eq!(cards.year_of_plenty, 0);
    assert_eq!(cards.monopole, 0);
    assert_eq!(cards.victory_point, 0);
}

#[test]
fn test_development_cards_index() {
    let mut cards = DevelopmentCards::new();
    cards.knight = 3;
    cards.road_building = 1;
    cards.year_of_plenty = 2;
    cards.monopole = 1;
    cards.victory_point = 4;

    assert_eq!(cards[DevelopmentCard::Knight], 3);
    assert_eq!(cards[DevelopmentCard::RoadBuilding], 1);
    assert_eq!(cards[DevelopmentCard::YearOfPlenty], 2);
    assert_eq!(cards[DevelopmentCard::Monopole], 1);
    assert_eq!(cards[DevelopmentCard::VictoryPoint], 4);
}

#[test]
fn test_development_cards_index_mut() {
    let mut cards = DevelopmentCards::new();
    cards[DevelopmentCard::Knight] = 5;
    cards[DevelopmentCard::VictoryPoint] = 3;

    assert_eq!(cards.knight, 5);
    assert_eq!(cards.victory_point, 3);
}

#[test]
fn test_development_cards_add_assign() {
    let mut cards1 = DevelopmentCards::new();
    cards1.knight = 2;
    cards1.road_building = 1;

    let mut cards2 = DevelopmentCards::new();
    cards2.knight = 3;
    cards2.victory_point = 2;

    cards1.add_assign(cards2);

    assert_eq!(cards1.knight, 5);
    assert_eq!(cards1.road_building, 1);
    assert_eq!(cards1.victory_point, 2);
    assert_eq!(cards1.total(), 8);
}

#[test]
fn development_cards_set_one_kind() {
    let mut cards = DevelopmentCards::new();
    cards.set(DevelopmentCard::Monopole, 7);
    assert_eq!(cards.monopole, 7);
    assert_eq!(cards.total(), 7);
}
