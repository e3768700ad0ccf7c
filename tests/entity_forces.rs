use ascii_arcade::entity::{Entity, EntityType};

// Tests to ensure the order of force-application is as expected
#[test]
fn test_reaction_force_from_velocity_delta_during_collision() {}

#[test]
fn test_reaction_force_from_normal_force() {}

#[test]
fn test_reaction_force_from_forces_applied_by_external_bodies() {}

#[test]
fn apply_force_accumulates_and_saturates() {
    let mut a = Entity::new(EntityType::Npc, (1000, 1000));
    let f = a.target_acc(100_000, 0);
    assert_eq!(f.x, 100_000);
    a.apply_force(f);
    a.apply_force(f);
    assert_eq!(a.input_force.x, 200_000);
    let big = a.target_acc(4_000_000_000, -4_000_000_000);
    a.apply_force(big);
    a.apply_force(big);
    assert_eq!(a.input_force.x, 100_000_000);
    assert_eq!(a.input_force.y, -100_000_000);
}

#[test]
fn default_entity_is_an_npc_at_rest() {
    let e = Entity::default();
    assert_eq!(e.id, EntityType::Npc);
    assert_eq!(e.pos, (0, 0));
    assert_eq!((e.mass, e.hit_radius), (1000, 500));
    assert!(!e.grounded);
}
