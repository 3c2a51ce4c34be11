use std::cmp::Ordering;

use catan::utils::resource::{Resource, Resources};

#[test]
fn test_resource_to_u8() {
    assert_eq!(Resource::Brick.to_u8(), 0);
    assert_eq!(Resource::Lumber.to_u8(), 1);
    assert_eq!(Resource::Ore.to_u8(), 2);
    assert_eq!(Resource::Grain.to_u8(), 3);
    assert_eq!(Resource::Wool.to_u8(), 4);
}

#[test]
fn test_resource_try_from() {
    assert_eq!(Resource::try_from(0), Ok(Resource::Brick));
    assert_eq!(Resource::try_from(1), Ok(Resource::Lumber));
    assert_eq!(Resource::try_from(2), Ok(Resource::Ore));
    assert_eq!(Resource::try_from(3), Ok(Resource::Grain));
    assert_eq!(Resource::try_from(4), Ok(Resource::Wool));
    assert!(Resource::try_from(5).is_err());
    assert!(Resource::try_from(10).is_err());
}

#[test]
fn test_resources_constants() {
    assert_eq!(Resources::zero(), Resources::new(0, 0, 0, 0, 0));
    assert_eq!(Resources::road(), Resources::new(1, 1, 0, 0, 0));
    assert_eq!(Resources::settlement(), Resources::new(1, 1, 0, 1, 1));
    assert_eq!(Resources::city(), Resources::new(0, 0, 3, 2, 0));
    assert_eq!(Resources::dvp_card(), Resources::new(0, 0, 1, 1, 1));
}

#[test]
fn test_resources_new_one() {
    let brick_res = Resources::new_one(Resource::Brick, 3);
    assert_eq!(brick_res, Resources::new(3, 0, 0, 0, 0));

    let lumber_res = Resources::new_one(Resource::Lumber, 5);
    assert_eq!(lumber_res, Resources::new(0, 5, 0, 0, 0));
}

#[test]
fn test_resources_total() {
    assert_eq!(Resources::zero().total(), 0);
    assert_eq!(Resources::road().total(), 2);
    assert_eq!(Resources::settlement().total(), 4);
    assert_eq!(Resources::city().total(), 5);
    assert_eq!(Resources::new(1, 2, 3, 4, 5).total(), 15);
}

#[test]
fn test_resources_add() {
    let a = Resources::new(1, 2, 3, 4, 5);
    let b = Resources::new(5, 4, 3, 2, 1);
    let result = a + b;
    assert_eq!(result, Resources::new(6, 6, 6, 6, 6));
}

#[test]
fn test_resources_sub() {
    let a = Resources::new(5, 4, 3, 2, 1);
    let b = Resources::new(1, 2, 3, 4, 5);
    let result = a - b;
    assert_eq!(result, Resources::new(4, 2, 0, -2, -4));
}

#[test]
fn test_resources_add_assign() {
    let mut res = Resources::new(1, 1, 1, 1, 1);
    res.add_assign(Resources::new(2, 3, 4, 5, 6));
    assert_eq!(res, Resources::new(3, 4, 5, 6, 7));
}

#[test]
fn test_resources_sub_assign() {
    let mut res = Resources::new(5, 5, 5, 5, 5);
    res.sub_assign(Resources::new(1, 2, 3, 4, 5));
    assert_eq!(res, Resources::new(4, 3, 2, 1, 0));
}

#[test]
fn test_resources_index_resource() {
    let res = Resources::new(1, 2, 3, 4, 5);
    assert_eq!(res[Resource::Brick], 1);
    assert_eq!(res[Resource::Lumber], 2);
    assert_eq!(res[Resource::Ore], 3);
    assert_eq!(res[Resource::Grain], 4);
    assert_eq!(res[Resource::Wool], 5);
}

#[test]
fn test_resources_index_usize() {
    let res = Resources::new(1, 2, 3, 4, 5);
    assert_eq!(res[0], 1);
    assert_eq!(res[1], 2);
    assert_eq!(res[2], 3);
    assert_eq!(res[3], 4);
    assert_eq!(res[4], 5);
}

#[test]
fn test_resources_index_mut() {
    let mut res = Resources::zero();
    res[Resource::Brick] = 5;
    res[Resource::Lumber] = 3;
    assert_eq!(res, Resources::new(5, 3, 0, 0, 0));
}

#[test]
fn test_resources_partial_ord() {
    let a = Resources::new(1, 2, 3, 4, 5);
    let b = Resources::new(1, 2, 3, 4, 5);
    let c = Resources::new(2, 3, 4, 5, 6);
    let d = Resources::new(0, 1, 2, 3, 4);
    let e = Resources::new(2, 1, 3, 4, 5); // Some greater, some less

    // Equal case
    assert_eq!(a.partial_cmp(&b), Some(Ordering::Equal));
    assert!(a == b);

    // All less
    assert_eq!(a.partial_cmp(&c), Some(Ordering::Less));
    assert!(a < c);

    // All greater
    assert_eq!(a.partial_cmp(&d), Some(Ordering::Greater));
    assert!(a > d);

    // Mixed - should return None
    assert_eq!(a.partial_cmp(&e), None);
    assert!(!(a < e));
    assert!(!(a > e));
    assert!(!(a == e));
}

#[test]
fn test_resources_neg() {
    let res = Resources::new(1, 2, 3, -4, -5);
    let neg_res = -res;
    assert_eq!(neg_res, Resources::new(-1, -2, -3, 4, 5));
}

#[test]
fn test_resources_neg_ref() {
    let res = Resources::new(1, 2, 3, -4, -5);
    let neg_res = -&res;
    assert_eq!(neg_res, Resources::new(-1, -2, -3, 4, 5));
}

#[test]
fn test_resources_valid_trade() {
    // Valid trade: some positive, some negative
    let valid = Resources::new(1, 2, -1, -1, 0);
    assert!(valid.valid_trade());

    // Invalid trade: all positive
    let all_positive = Resources::new(1, 2, 3, 4, 5);
    assert!(!all_positive.valid_trade());

    // Invalid trade: all negative
    let all_negative = Resources::new(-1, -2, -3, -4, -5);
    assert!(!all_negative.valid_trade());

    // Invalid trade: all zero
    assert!(!Resources::zero().valid_trade());
}

#[test]
fn resources_starting_bank_holds_nineteen_of_each() {
    assert_eq!(Resources::starting_bank(), Resources::new(19, 19, 19, 19, 19));
    assert_eq!(Resources::starting_bank().total(), 95);
}

#[test]
fn resources_add_then_sub_gives_back_the_start() {
    let a = Resources::new(3, -2, 7, 0, 1);
    let b = Resources::new(-4, 5, 1, 2, -9);
    assert_eq!((a + b) - b, a);
    assert_eq!(-(-a), a);
}

#[test]
fn resources_set_and_read_by_position() {
    let mut res = Resources::zero();
    res.set_at(3, 9);
    res.set(Resource::Wool, -2);
    assert_eq!(res.get_at(3), 9);
    assert_eq!(res[4], -2);
    assert_eq!(res, Resources::new(0, 0, 0, 9, -2));
}

#[test]
fn resources_partial_ord_reads_all_counts() {
    let a = Resources::new(1, 1, 1, 1, 1);
    let b = Resources::new(1, 1, 1, 1, 2);
    assert_eq!(a.partial_cmp(&b), Some(Ordering::Less));
    assert!(a <= b);
    assert!(b >= a);
}

#[test]
fn resource_letters() {
    assert_eq!(Resource::Brick.to_string(), "B");
    assert_eq!(Resource::Lumber.to_string(), "L");
    assert_eq!(Resource::Ore.to_string(), "O");
    assert_eq!(Resource::Grain.to_string(), "G");
    assert_eq!(Resource::Wool.to_string(), "W");
}

#[test]
fn resource_from_index_and_to_usize() {
    for i in 0..Resource::COUNT {
        assert_eq!(Resource::from_index(i).to_usize(), i);
        assert_eq!(Resource::ALL[i], Resource::from_index(i));
    }
}
