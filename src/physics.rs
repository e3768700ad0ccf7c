//! The two-body form of the elastic collision formula.
use crate::collision::elastic;
use crate::entity::Entity;
use vstd::prelude::*;

verus! {

/// Calculates the velocities of both entities after `e1` collides with `e2`,
/// on each axis, from conservation of momentum and kinetic energy (see
/// `elastic`): `((v1x, v1y), (v2x, v2y))`.
pub fn collision_calc(e1: &Entity, e2: &Entity) -> (r: ((i64, i64), (i64, i64)))
    requires
        e1.wf(),
        e2.wf(),
    ensures
        r.0.0 == elastic(e1.vel.x as int, e1.mass as int, e2.vel.x as int, e2.mass as int),
        r.0.1 == elastic(e1.vel.y as int, e1.mass as int, e2.vel.y as int, e2.mass as int),
        r.1.0 == elastic(e2.vel.x as int, e2.mass as int, e1.vel.x as int, e1.mass as int),
        r.1.1 == elastic(e2.vel.y as int, e2.mass as int, e1.vel.y as int, e1.mass as int),
{
    let first = crate::collision::collision_calc(&e1.vel, &e1.mass, &e2.vel, &e2.mass);
    let second = crate::collision::collision_calc(&e2.vel, &e2.mass, &e1.vel, &e1.mass);
    ((first.x, first.y), (second.x, second.y))
}

} // verus!
