use catan::state::player_hand::{AccessibleHarbor, PlayerHand};
use catan::utils::resource::{Resource, Resources};
use catan::utils::Harbor;

#[test]
fn test_accessible_harbor_new() {
    let harbor = AccessibleHarbor::new();
    for i in 0..Harbor::COUNT {
        assert!(!harbor[i]);
    }
}

#[test]
fn test_accessible_harbor_add() {
    let mut harbor = AccessibleHarbor::new();
    harbor.add(Harbor::Generic);
    assert!(harbor[Harbor::Generic]);

    harbor.add(Harbor::Special(Resource::Brick));
    assert!(harbor[Harbor::Special(Resource::Brick)]);
}

#[test]
fn test_accessible_harbor_rate_default() {
    let harbor = AccessibleHarbor::new();
    assert_eq!(harbor.rate(Resource::Brick), 4);
    assert_eq!(harbor.rate(Resource::Wool), 4);
}

#[test]
fn test_accessible_harbor_rate_generic() {
    let mut harbor = AccessibleHarbor::new();
    harbor.add(Harbor::Generic);
    assert_eq!(harbor.rate(Resource::Brick), 3);
    assert_eq!(harbor.rate(Resource::Wool), 3);
}

#[test]
fn test_accessible_harbor_rate_special() {
    let mut harbor = AccessibleHarbor::new();
    harbor.add(Harbor::Special(Resource::Brick));
    assert_eq!(harbor.rate(Resource::Brick), 2);
    assert_eq!(harbor.rate(Resource::Wool), 4);
}

#[test]
fn test_accessible_harbor_rate_special_overrides_generic() {
    let mut harbor = AccessibleHarbor::new();
    harbor.add(Harbor::Generic);
    harbor.add(Harbor::Special(Resource::Brick));
    assert_eq!(harbor.rate(Resource::Brick), 2);
    assert_eq!(harbor.rate(Resource::Wool), 3);
}

#[test]
fn test_player_hand_new() {
    let hand = PlayerHand::new();
    assert_eq!(hand.resources, Resources::zero());
    assert_eq!(hand.road_pieces, 15);
    assert_eq!(hand.settlement_pieces, 5);
    assert_eq!(hand.city_pieces, 4);
    assert_eq!(hand.building_vp, 0);
    assert_eq!(hand.knights, 0);
    assert_eq!(hand.continous_road, 0);
    assert_eq!(hand.development_cards.total(), 0);
    assert_eq!(hand.new_development_cards.total(), 0);
}

#[test]
fn test_player_hand_modify_resources() {
    let mut hand = PlayerHand::new();
    hand.resources = Resources::new(1, 2, 3, 4, 5);
    assert_eq!(hand.resources[Resource::Brick], 1);
    assert_eq!(hand.resources[Resource::Lumber], 2);
    assert_eq!(hand.resources[Resource::Ore], 3);
    assert_eq!(hand.resources[Resource::Grain], 4);
    assert_eq!(hand.resources[Resource::Wool], 5);
}

#[test]
fn test_player_hand_modify_pieces() {
    let mut hand = PlayerHand::new();
    hand.road_pieces = 10;
    hand.settlement_pieces = 3;
    hand.city_pieces = 2;

    assert_eq!(hand.road_pieces, 10);
    assert_eq!(hand.settlement_pieces, 3);
    assert_eq!(hand.city_pieces, 2);
}

#[test]
fn test_player_hand_harvest_on_roll() {
    let mut hand = PlayerHand::new();
    hand.harvest_on_roll[5] = Resources::new(1, 1, 0, 0, 0);
    hand.harvest_on_roll[6] = Resources::new(0, 0, 2, 1, 0);

    assert_eq!(hand.harvest_on_roll[5], Resources::new(1, 1, 0, 0, 0));
    assert_eq!(hand.harvest_on_roll[6], Resources::new(0, 0, 2, 1, 0));
}

#[test]
fn accessible_harbor_add_no_harbor_changes_nothing() {
    let mut harbor = AccessibleHarbor::new();
    harbor.add(Harbor::NoHarbor);
    for i in 0..Harbor::COUNT {
        assert!(!harbor[i]);
    }
    assert_eq!(harbor.rate(Resource::Ore), 4);
}

#[test]
fn player_hand_new_has_no_harbor_and_no_harvest() {
    let hand = PlayerHand::new();
    for i in 0..Harbor::COUNT {
        assert!(!hand.harbor[i]);
    }
    for roll in 0..11 {
        assert_eq!(hand.harvest_on_roll[roll], Resources::zero());
    }
}

#[test]
fn accessible_harbor_set_by_slot_or_kind() {
    let mut harbor = AccessibleHarbor::new();
    harbor.set_at(2, true);
    assert!(harbor[Harbor::Special(Resource::Ore)]);
    assert_eq!(harbor.rate(Resource::Ore), 2);
    harbor.set(Harbor::Special(Resource::Ore), false);
    assert!(!harbor[2]);
    harbor.set(Harbor::Generic, true);
    assert_eq!(harbor.rate(Resource::Ore), 3);
}
