use ascii_arcade::primitives::{Aabb, Intersect};

/// Runs the intersection test of the box under test against `other`.
fn check(expected: bool, other: Aabb) {
    let under_test = Aabb::new(10_000, 10_000, 20_000, 20_000);
    assert_eq!(expected, under_test.intersect(&other));
}

#[test]
fn test_intersect_top_right() {
    check(true, Aabb::new(15_000, 15_000, 25_000, 25_000));
}

#[test]
fn test_intersect_btm_right() {
    check(true, Aabb::new(15_000, 5000, 25_000, 15_000));
}

#[test]
fn test_intersect_top_left() {
    check(true, Aabb::new(5000, 15_000, 15_000, 25_000));
}

#[test]
fn test_intersect_btm_left() {
    check(true, Aabb::new(5000, 5000, 15_000, 15_000));
}

#[test]
fn test_no_intersect_top_right() {
    check(false, Aabb::new(20_100, 20_100, 25_000, 25_000));
}

#[test]
fn test_no_intersect_btm_right() {
    check(false, Aabb::new(15_000, 5000, 20_100, 9900));
}

#[test]
fn test_no_intersect_top_left() {
    check(false, Aabb::new(5000, 20_100, 9900, 25_000));
}

#[test]
fn test_no_intersect_btm_left() {
    check(false, Aabb::new(5000, 5000, 9900, 9900));
}

#[test]
fn default_box_is_one_unit_at_origin() {
    let d = Aabb::default();
    assert_eq!((d.min, d.max), ((0, 0), (1000, 1000)));
    check(false, d);
}
