use ascii_arcade::entity::{Entity, EntityError, EntityType, DEFAULT_WINDOW};
use ascii_arcade::vector::EuclidianVector;

/// Whole units from 0 to 5, as the steps `i / 10` rounded.
fn step(i: i32) -> i64 {
    (i as f32 * 0.1).round() as i64 * 1000
}

#[test]
fn test_target_pos_x_same_initial_xy() {
    let initial: (i64, i64) = (5000, 5000);
    for i in 1..50 {
        let mut entity = Entity::new(EntityType::Npc, initial);
        let expected = (initial.0 + step(i), initial.1);
        let force = entity.target_pos(expected.0, expected.1);
        entity.apply_force(force);
        entity.update(DEFAULT_WINDOW);
        assert_eq!(entity.pos, expected);
    }
}

#[test]
fn test_target_pos_y_same_initial_xy() {
    let initial: (i64, i64) = (5000, 2000);
    for i in 1..50 {
        let mut entity = Entity::new(EntityType::Npc, initial);
        let expected = (initial.0, initial.1 + step(i));
        let force = entity.target_pos(expected.0, expected.1);
        entity.apply_force(force);
        entity.update(DEFAULT_WINDOW);
        assert_eq!(entity.pos, expected);
    }
}

#[test]
fn test_target_pos_x_different_initial_xy() {
    let initial: (i64, i64) = (8000, 7000);
    for i in 1..50 {
        let mut entity = Entity::new(EntityType::Npc, initial);
        let expected = (initial.0 - step(i), initial.1);
        let force = entity.target_pos(expected.0, expected.1);
        entity.apply_force(force);
        entity.update(DEFAULT_WINDOW);
        assert_eq!(entity.pos, expected);
    }
}

#[test]
fn test_target_pos_y_different_initial_xy() {
    let initial: (i64, i64) = (8000, 7000);
    for i in 1..50 {
        let mut entity = Entity::new(EntityType::Npc, initial);
        let expected = (initial.0, initial.1 - step(i));
        let force = entity.target_pos(expected.0, expected.1);
        entity.apply_force(force);
        entity.update(DEFAULT_WINDOW);
        assert_eq!(entity.pos, expected);
    }
}

#[test]
fn test_target_vel_x_same_initial_xy() {
    let initial: (i64, i64) = (5000, 5000);
    for i in 1..50 {
        let mut entity = Entity::new(EntityType::Npc, initial);
        let expected = EuclidianVector::new(initial.0 + step(i), initial.1);
        let force = entity.target_vel(expected.x, expected.y);
        entity.apply_force(force);
        entity.update(DEFAULT_WINDOW);
        assert_eq!(entity.vel, expected);
    }
}

#[test]
fn test_target_vel_y_same_initial_xy() {
    let initial: (i64, i64) = (5000, 5000);
    for i in 1..50 {
        let mut entity = Entity::new(EntityType::Npc, initial);
        let expected = EuclidianVector::new(initial.0, initial.1 + step(i));
        let force = entity.target_vel(expected.x, expected.y);
        entity.apply_force(force);
        entity.update(DEFAULT_WINDOW);
        assert_eq!(entity.vel, expected);
    }
}

#[test]
fn test_target_vel_x_different_initial_xy() {
    let initial: (i64, i64) = (8000, 7000);
    for i in 1..50 {
        let mut entity = Entity::new(EntityType::Npc, initial);
        let expected = EuclidianVector::new(initial.0 - step(i), initial.1);
        let force = entity.target_vel(expected.x, expected.y);
        entity.apply_force(force);
        entity.update(DEFAULT_WINDOW);
        assert_eq!(entity.vel, expected);
    }
}

#[test]
fn test_target_vel_y_different_initial_xy() {
    let initial: (i64, i64) = (8000, 7000);
    for i in 1..50 {
        let mut entity = Entity::new(EntityType::Npc, initial);
        let expected = EuclidianVector::new(initial.0, initial.1 - step(i));
        let force = entity.target_vel(expected.x, expected.y);
        entity.apply_force(force);
        entity.update(DEFAULT_WINDOW);
        assert_eq!(entity.vel, expected);
    }
}

#[test]
fn integration_formulas() {
    // one unit of force for one tick on a mass of 2: a = 0.5, v = 0.005,
    // x += 0.005 * 0.01 + 0.5 * 0.5 * 0.0001 (rounded to a step)
    let mut e = Entity::with_body(EntityType::Npc, (10_000, 5000), 2000, 500).unwrap();
    e.apply_force(EuclidianVector::new(1000, 0));
    e.update(DEFAULT_WINDOW);
    assert_eq!(e.acc, EuclidianVector::new(500, 0));
    assert_eq!(e.vel, EuclidianVector::new(5, 0));
    assert_eq!(e.pos, (10_000, 5000));
    assert_eq!(e.input_force, EuclidianVector::new(0, 0));
}

#[test]
fn velocity_and_acceleration_saturate() {
    let mut e = Entity::new(EntityType::Npc, (20_000, 5000));
    let f = e.target_vel(100_000, -100_000);
    e.apply_force(f);
    e.update(DEFAULT_WINDOW);
    assert_eq!(e.vel, EuclidianVector::new(20_000, -20_000));
    assert_eq!(e.acc, EuclidianVector::new(1_000_000, -1_000_000));
}

#[test]
fn boundary_clamp_is_idempotent() {
    let mut e = Entity::new(EntityType::Npc, (60_000, 12_000));
    e.vel = EuclidianVector::new(3000, 4000);
    e.constrain(DEFAULT_WINDOW);
    assert_eq!(e.pos, (49_000, 9000));
    assert_eq!(e.vel, EuclidianVector::new(0, 0));
    assert!(e.grounded);
    let once = e;
    e.constrain(DEFAULT_WINDOW);
    assert_eq!(e.pos, once.pos);
    assert_eq!(e.vel, once.vel);
    assert_eq!(e.acc, once.acc);
    assert_eq!(e.grounded, once.grounded);

    let mut low = Entity::new(EntityType::Npc, (-5000, 4000));
    low.vel = EuclidianVector::new(-3000, 2000);
    low.constrain(DEFAULT_WINDOW);
    assert_eq!(low.pos, (1000, 4000));
    assert_eq!(low.vel, EuclidianVector::new(0, 2000));
    assert!(!low.grounded);
}

#[test]
fn invalid_bodies_are_rejected() {
    assert_eq!(Entity::with_body(EntityType::Npc, (0, 0), 0, 500).unwrap_err(), EntityError::InvalidMass);
    assert_eq!(Entity::with_body(EntityType::Npc, (0, 0), 1000, -1).unwrap_err(), EntityError::InvalidHitRadius);
    assert_eq!(
        Entity::with_body(EntityType::Npc, (i64::MAX, 0), 1000, 500).unwrap_err(),
        EntityError::PositionOutOfRange
    );
    let e = Entity::with_body(EntityType::Static, (3000, 4000), 5000, 1000).unwrap();
    assert_eq!((e.mass, e.hit_radius, e.pos), (5000, 1000, (3000, 4000)));
}
