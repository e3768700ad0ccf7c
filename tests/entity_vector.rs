use ascii_arcade::collision::collision_calc;
use ascii_arcade::entity::{Entity, EntityType};
use ascii_arcade::vector::EuclidianVector;

/// Initial and expected velocity values preceding and following a collision.
struct TestData {
    points: ((i64, i64), (i64, i64)),
    initial_vels: (EuclidianVector, EuclidianVector),
    expect_vels: (EuclidianVector, EuclidianVector),
}

fn data(
    points: ((i64, i64), (i64, i64)),
    initial: ((i64, i64), (i64, i64)),
    expected: ((i64, i64), (i64, i64)),
) -> TestData {
    TestData {
        points,
        initial_vels: (
            EuclidianVector::new(initial.0 .0, initial.0 .1),
            EuclidianVector::new(initial.1 .0, initial.1 .1),
        ),
        expect_vels: (
            EuclidianVector::new(expected.0 .0, expected.0 .1),
            EuclidianVector::new(expected.1 .0, expected.1 .1),
        ),
    }
}

fn make_test_data() -> Vec<TestData> {
    vec![
        // point a is moving right towards a static point b
        data(((0, 0), (1000, 0)), ((1000, 0), (0, 0)), ((0, 0), (1000, 0))),
        // point b is moving left towards a static point a
        data(((0, 0), (1000, 0)), ((0, 0), (-1000, 0)), ((-1000, 0), (0, 0))),
        // point b is moving down towards a static point a
        data(((0, 0), (0, 1000)), ((0, 0), (0, -1000)), ((0, -1000), (0, 0))),
        // point a is moving up towards a static point b
        data(((0, 0), (0, 1000)), ((0, 1000), (0, 0)), ((0, 0), (0, 1000))),
        // two points moving towards each other along x-axis
        data(((0, 0), (1000, 0)), ((1000, 0), (-1000, 0)), ((-1000, 0), (1000, 0))),
    ]
}

#[test]
fn test_collision_calc() {
    let ma: i64 = 1000;
    let mb: i64 = 1000;
    for data in make_test_data() {
        let a = data.initial_vels.0;
        let b = data.initial_vels.1;
        let new_a_vel = collision_calc(&a, &ma, &b, &mb);
        let new_b_vel = collision_calc(&b, &mb, &a, &ma);
        assert!((new_a_vel.x, new_a_vel.y) == (data.expect_vels.0.x, data.expect_vels.0.y));
        assert!((new_b_vel.x, new_b_vel.y) == (data.expect_vels.1.x, data.expect_vels.1.y));
    }
}

#[test]
fn test_mapping_motion_onto_direction_of_collision() {
    for data in make_test_data() {
        let a_to_b = EuclidianVector::from(data.points.0, data.points.1).unit();
        let b_to_a = EuclidianVector::from(data.points.1, data.points.0).unit();
        let a_vel_mod = EuclidianVector::new(
            a_to_b.x.abs() * data.initial_vels.0.x / 1000,
            a_to_b.y.abs() * data.initial_vels.0.y / 1000,
        );
        let b_vel_mod = EuclidianVector::new(
            b_to_a.x.abs() * data.initial_vels.1.x / 1000,
            b_to_a.y.abs() * data.initial_vels.1.y / 1000,
        );
        let new_a_vel = collision_calc(&a_vel_mod, &1000, &b_vel_mod, &1000);
        let new_b_vel = collision_calc(&b_vel_mod, &1000, &a_vel_mod, &1000);
        assert!((new_a_vel.x, new_a_vel.y) == (data.expect_vels.0.x, data.expect_vels.0.y));
        assert!((new_b_vel.x, new_b_vel.y) == (data.expect_vels.1.x, data.expect_vels.1.y));
    }
}

#[test]
fn elastic_unequal_masses() {
    // a heavy body (3) at 2 units/s hits a light one (1) at rest:
    // va' = 2 (3 - 1) / 4 = 1, vb' = 2 * 3 * 2 / 4 = 3
    let a = EuclidianVector::new(2000, 0);
    let b = EuclidianVector::new(0, 0);
    assert_eq!(collision_calc(&a, &3000, &b, &1000), EuclidianVector::new(1000, 0));
    assert_eq!(collision_calc(&b, &1000, &a, &3000), EuclidianVector::new(3000, 0));
}

#[test]
fn vector_arithmetic() {
    let a = EuclidianVector::new(1000, 2000);
    let b = EuclidianVector::new(1000, -2000);
    assert_eq!(a.add(b), EuclidianVector::new(2000, 0));
    assert_eq!(a.sub(b), EuclidianVector::new(0, 4000));
    let mut c = a;
    c.add_assign(b);
    assert_eq!(c, EuclidianVector::new(2000, 0));
    c.sub_assign(b);
    assert_eq!(c, a);
    assert_eq!(EuclidianVector::new(2000, -2000).mul(10_000), EuclidianVector::new(20_000, -20_000));
    let mut d = EuclidianVector::new(2000, -2000);
    d.mul_assign(500);
    assert_eq!(d, EuclidianVector::new(1000, -1000));
    assert_eq!(EuclidianVector::from((2000, 2000), (5000, 6000)), EuclidianVector::new(3000, 4000));
    assert_eq!(EuclidianVector::from((5000, 6000), (2000, 2000)), EuclidianVector::new(-3000, -4000));
}

#[test]
fn magnitude_of_pythagorean_triples() {
    assert_eq!(EuclidianVector::new(3000, 4000).magnitude(), 5000);
    assert_eq!(EuclidianVector::new(5000, 12000).magnitude(), 13000);
    assert_eq!(EuclidianVector::new(8000, 15000).magnitude(), 17000);
    assert_eq!(EuclidianVector::new(7000, 24000).magnitude(), 25000);
}

#[test]
fn unit_vectors_have_unit_length() {
    assert_eq!(EuclidianVector::new(0, 0).unit(), EuclidianVector::new(0, 0));
    assert_eq!(EuclidianVector::new(0, -100_000).unit(), EuclidianVector::new(0, -1000));
    assert_eq!(EuclidianVector::new(1000, 1000).unit(), EuclidianVector::new(707, 707));
    assert_eq!(EuclidianVector::new(3000, -4000).unit(), EuclidianVector::new(600, -800));
    for (x, y) in [(1, 0), (1, 1), (3, 7), (-123_456, 789), (4_000_000_000, -1), (17, -4_000_000_000)] {
        let u = EuclidianVector::new(x, y).unit();
        let m = u.magnitude();
        assert!((998..=1001).contains(&m), "{:?} has magnitude {}", u, m);
        let d = u.dot(&u);
        assert!((996..=1004).contains(&d));
        assert!((d - m).abs() <= 6);
    }
}

#[test]
fn dot_products() {
    let a = EuclidianVector::new(0, 1000).unit();
    let b = EuclidianVector::new(0, 1000).unit();
    assert_eq!(a.dot(&b), a.magnitude());
    let a = EuclidianVector::new(1000, 0).unit();
    assert_eq!(a.dot(&b), 0);
    let a = EuclidianVector::new(0, -1000).unit();
    assert_eq!(a.dot(&b), -a.magnitude());
    assert_eq!(EuclidianVector::new(2500, -1000).dot(&EuclidianVector::new(2000, 3000)), 2000);
}

#[test]
fn two_body_collision_calc() {

    let mut e1 = Entity::new(EntityType::Npc, (1000, 1000));
    let mut e2 = Entity::with_body(EntityType::Npc, (2000, 1000), 3000, 500).unwrap();
    e1.vel = EuclidianVector::new(4000, -2000);
    e2.vel = EuclidianVector::new(0, 2000);
    // v1' = (v1 (1 - 3) + 2 * 3 * v2) / 4, v2' = (v2 (3 - 1) + 2 * 1 * v1) / 4
    assert_eq!(
        ascii_arcade::physics::collision_calc(&e1, &e2),
        ((-2000, 4000), (2000, 0))
    );
}
