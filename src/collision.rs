//! Pairwise contact detection and impulse response between entities, and the
//! physics pass of a tick.
use crate::entity::{
    accumulate, force_for_vel, integrated, within, Entity, EntityType, MAX_MASS, SPEED_BOUND,
};
use crate::fixed::{div_round, round_div, SCALE};
use crate::primitives::{abs, square_overlap, Square};
use crate::vector::{dot_of, unit_of, EuclidianVector};
use vstd::prelude::*;

verus! {

/// The square hitbox of an entity.
pub open spec fn hitbox(e: Entity) -> Square {
    Square { centroid: e.pos, apothem: e.hit_radius }
}

/// Unit vector from one point towards another.
pub open spec fn direction(from: (i64, i64), to: (i64, i64)) -> (int, int) {
    unit_of(to.0 - from.0, to.1 - from.1)
}

/// The bodies move into each other: at least one has a positive speed
/// towards the other.
pub open spec fn approaching(me: Entity, other: Entity) -> bool {
    let d_me = direction(me.pos, other.pos);
    let d_other = direction(other.pos, me.pos);
    !(dot_of(me.vel.x as int, me.vel.y as int, d_me.0, d_me.1) <= 0 && dot_of(
        other.vel.x as int,
        other.vel.y as int,
        d_other.0,
        d_other.1,
    ) <= 0)
}

/// The share of speed `v` along an axis whose unit-direction component is `d`.
pub open spec fn projected(d: int, v: int) -> int {
    round_div(abs(d) * v, SCALE as int)
}

/// Speed after a one-dimensional elastic collision of mass `ma` at speed `va`
/// with mass `mb` at speed `vb`: `(va (ma - mb) + 2 mb vb) / (ma + mb)`.
pub open spec fn elastic(va: int, ma: int, vb: int, mb: int) -> int {
    round_div(va * (ma - mb) + 2 * mb * vb, ma + mb)
}

/// Velocity of `me` after colliding with `other`, each body's velocity taken
/// along the contact normal.
pub open spec fn collision_velocity(me: Entity, other: Entity) -> (int, int) {
    let d_me = direction(me.pos, other.pos);
    let d_other = direction(other.pos, me.pos);
    (
        elastic(
            projected(d_me.0, me.vel.x as int),
            me.mass as int,
            projected(d_other.0, other.vel.x as int),
            other.mass as int,
        ),
        elastic(
            projected(d_me.1, me.vel.y as int),
            me.mass as int,
            projected(d_other.1, other.vel.y as int),
            other.mass as int,
        ),
    )
}

/// Force that takes `me` to its post-collision velocity in one tick, when the
/// bodies approach; `None` when they do not.
pub open spec fn collision_force_of(me: Entity, other: Entity) -> Option<(int, int)> {
    if approaching(me, other) {
        let v = collision_velocity(me, other);
        Some(
            (
                force_for_vel(me.mass as int, me.vel.x as int, v.0),
                force_for_vel(me.mass as int, me.vel.y as int, v.1),
            ),
        )
    } else {
        None
    }
}

/// `me` after its contact with `other`: nothing when the hitboxes do not
/// overlap or the centroids coincide; otherwise grounded when the overlap is
/// at least as wide as it is tall, and pushed by the collision force when the
/// bodies approach.
pub open spec fn resolve_pair(me: Entity, other: Entity) -> Entity {
    match square_overlap(hitbox(me), hitbox(other)) {
        None => me,
        Some(o) => {
            if me.pos == other.pos {
                me
            } else {
                let grounded = me.grounded || o.0 >= o.1;
                match collision_force_of(me, other) {
                    None => Entity { grounded, ..me },
                    Some(f) => Entity {
                        grounded,
                        input_force: EuclidianVector {
                            x: accumulate(me.input_force.x as int, f.0) as i64,
                            y: accumulate(me.input_force.y as int, f.1) as i64,
                        },
                        ..me
                    },
                }
            }
        },
    }
}

/// `me` after its contacts with `others[0..upto]` in order, leaving out
/// `others[index]` (the entity itself).
pub open spec fn resolve_against(me: Entity, others: Seq<Entity>, index: int, upto: int) -> Entity
    decreases upto,
{
    if upto <= 0 {
        me
    } else {
        let prev = resolve_against(me, others, index, upto - 1);
        if upto - 1 == index {
            prev
        } else {
            resolve_pair(prev, others[upto - 1])
        }
    }
}

/// Entity `i` of `es` after the physics of a tick: static bodies stay as they
/// are; the others are ungrounded, resolved against every other entity of the
/// snapshot `es`, then integrated.
pub open spec fn advanced(es: Seq<Entity>, i: int, window: (u16, u16)) -> Entity {
    if es[i].id == EntityType::Static {
        es[i]
    } else {
        integrated(resolve_against(Entity { grounded: false, ..es[i] }, es, i, es.len() as int), window)
    }
}

/// Number of entities in `es[0..upto]` that are not static.
pub open spec fn dynamic_count(es: Seq<Entity>, upto: int) -> int
    decreases upto,
{
    if upto <= 0 {
        0
    } else {
        dynamic_count(es, upto - 1) + if es[upto - 1].id == EntityType::Static {
            0int
        } else {
            1int
        }
    }
}

/// Every entity of `es` is well formed.
pub open spec fn all_wf(es: Seq<Entity>) -> bool {
    forall|k: int| 0 <= k < es.len() ==> #[trigger] es[k].wf()
}

/// Calculates the velocity after a collision from conservation of momentum
/// and kinetic energy (see `elastic`), on each axis.
pub fn collision_calc(va: &EuclidianVector, ma: &i64, vb: &EuclidianVector, mb: &i64) -> (r:
    EuclidianVector)
    requires
        0 < *ma <= MAX_MASS,
        0 < *mb <= MAX_MASS,
        within(va.x as int, SPEED_BOUND as int),
        within(va.y as int, SPEED_BOUND as int),
        within(vb.x as int, SPEED_BOUND as int),
        within(vb.y as int, SPEED_BOUND as int),
    ensures
        r.x == elastic(va.x as int, *ma as int, vb.x as int, *mb as int),
        r.y == elastic(va.y as int, *ma as int, vb.y as int, *mb as int),
        within(r.x as int, 3 * SPEED_BOUND),
        within(r.y as int, 3 * SPEED_BOUND),
{
    let x = elastic_axis(va.x, *ma, vb.x, *mb);
    let y = elastic_axis(va.y, *ma, vb.y, *mb);
    EuclidianVector::new(x, y)
}

fn elastic_axis(va: i64, ma: i64, vb: i64, mb: i64) -> (r: i64)
    requires
        0 < ma <= MAX_MASS,
        0 < mb <= MAX_MASS,
        within(va as int, SPEED_BOUND as int),
        within(vb as int, SPEED_BOUND as int),
    ensures
        r == elastic(va as int, ma as int, vb as int, mb as int),
        within(r as int, 3 * SPEED_BOUND),
{
    proof {
        lemma_elastic_bound(va as int, ma as int, vb as int, mb as int);
    }
    let n: i128 = va as i128 * (ma as i128 - mb as i128) + 2 * mb as i128 * vb as i128;
    let d: i128 = ma as i128 + mb as i128;
    let r = div_round(n, d);
    r as i64
}

proof fn lemma_elastic_bound(va: int, ma: int, vb: int, mb: int)
    requires
        0 < ma <= MAX_MASS,
        0 < mb <= MAX_MASS,
        within(va, SPEED_BOUND as int),
        within(vb, SPEED_BOUND as int),
    ensures
        within(va * (ma - mb), 0x1_0000_0000_0000_0000),
        within(2 * mb * vb, 0x1_0000_0000_0000_0000),
        within(va * (ma - mb) + 2 * mb * vb, 0x1_0000_0000_0000_0000),
        within(elastic(va, ma, vb, mb), 3 * SPEED_BOUND),
{
    let b = 0x4000_0000int;
    assert(within(va * (ma - mb), 0x1_0000_0000_0000_0000) && within(2 * mb * vb, 0x1_0000_0000_0000_0000)) by (nonlinear_arith)
        requires
            0 < ma <= 1_000_000,
            0 < mb <= 1_000_000,
            -b <= va <= b,
            -b <= vb <= b,
            b == 0x4000_0000,
    ;
    let n = va * (ma - mb) + 2 * mb * vb;
    assert(-(3 * b * (ma + mb)) <= n <= 3 * b * (ma + mb)) by (nonlinear_arith)
        requires
            0 < ma,
            0 < mb,
            -b <= va <= b,
            -b <= vb <= b,
            n == va * (ma - mb) + 2 * mb * vb,
    ;
    assert(within(n, 0x1_0000_0000_0000_0000)) by (nonlinear_arith)
        requires
            0 < ma <= 1_000_000,
            0 < mb <= 1_000_000,
            -b <= va <= b,
            -b <= vb <= b,
            b == 0x4000_0000,
            n == va * (ma - mb) + 2 * mb * vb,
    ;
    crate::vector::lemma_round_div_bound(n, ma + mb, 3 * b);
}

impl Entity {
    /// The force that this entity experiences from the velocity change of a
    /// collision with `target`, or `None` when neither body moves into the other.
    pub fn collision_force(&mut self, target: &Entity) -> (r: Option<EuclidianVector>)
        requires
            old(self).wf(),
            target.wf(),
        ensures
            *final(self) == *old(self),
            r matches Some(f) ==> collision_force_of(*old(self), *target) == Some(
                (f.x as int, f.y as int),
            ),
            r is None <==> collision_force_of(*old(self), *target) is None,
    {
        let me_to_you = EuclidianVector::from(self.pos, target.pos).unit();
        let you_to_me = EuclidianVector::from(target.pos, self.pos).unit();
        if self.vel.dot(&me_to_you) <= 0 && target.vel.dot(&you_to_me) <= 0 {
            return None;
        }
        let mine = EuclidianVector::new(
            project(me_to_you.x, self.vel.x),
            project(me_to_you.y, self.vel.y),
        );
        let theirs = EuclidianVector::new(
            project(you_to_me.x, target.vel.x),
            project(you_to_me.y, target.vel.y),
        );
        let resultant_vel = collision_calc(&mine, &self.mass, &theirs, &target.mass);
        Some(self.target_vel(resultant_vel.x, resultant_vel.y))
    }
}

/// The share of speed `v` along an axis of unit-direction component `d`.
fn project(d: i64, v: i64) -> (r: i64)
    requires
        -SCALE <= d <= SCALE,
        within(v as int, SPEED_BOUND as int),
    ensures
        r == projected(d as int, v as int),
        within(r as int, SPEED_BOUND as int),
{
    let ad: i128 = if d < 0 {
        -(d as i128)
    } else {
        d as i128
    };
    proof {
        assert(within(ad * v, 1000int * 0x4000_0000)) by (nonlinear_arith)
            requires
                0 <= ad <= 1000,
                -0x4000_0000 <= v <= 0x4000_0000,
        ;
        crate::vector::lemma_round_div_bound(ad * v, 1000, 0x4000_0000);
    }
    div_round(ad * v as i128, SCALE as i128) as i64
}

/// Resolves `me` against a single other entity (see `resolve_pair`).
fn resolve_contact(me: &mut Entity, other: &Entity)
    requires
        old(me).wf(),
        other.wf(),
    ensures
        final(me).wf(),
        *final(me) == resolve_pair(*old(me), *other),
{
    let mine = Square::new(me.pos, me.hit_radius);
    let theirs = Square::new(other.pos, other.hit_radius);
    if let Some(overlap) = mine.overlap(&theirs) {
        if me.pos.0 == other.pos.0 && me.pos.1 == other.pos.1 {
            return ;
        }
        let force = me.collision_force(other);
        if overlap.0 >= overlap.1 {
            me.grounded = true;
        }
        if let Some(f) = force {
            me.apply_force(f);
        }
    }
}

/// Applies the forces of contact with the other entities to `entity`, which
/// stands at `index` in `other_entities`: it is first ungrounded, then
/// resolved against each other entity in order (never against itself).
/// Returns the number of pairs it compared.
pub fn pairwise(entity: &mut Entity, index: usize, other_entities: &Vec<Entity>) -> (pairs: usize)
    requires
        old(entity).wf(),
        all_wf(other_entities@),
    ensures
        final(entity).wf(),
        *final(entity) == resolve_against(
            Entity { grounded: false, ..*old(entity) },
            other_entities@,
            index as int,
            other_entities@.len() as int,
        ),
        pairs == if index < other_entities@.len() {
            other_entities@.len() - 1
        } else {
            other_entities@.len() as int
        },
{
    entity.grounded = false;
    let ghost start = *entity;
    let mut pairs: usize = 0;
    let mut j: usize = 0;
    while j < other_entities.len()
        invariant
            j <= other_entities@.len(),
            entity.wf(),
            all_wf(other_entities@),
            *entity == resolve_against(start, other_entities@, index as int, j as int),
            pairs == if index < j {
                j - 1
            } else {
                j as int
            },
        decreases other_entities@.len() - j,
    {
        if j != index {
            assert(other_entities@[j as int].wf());
            resolve_contact(entity, &other_entities[j]);
            pairs = pairs + 1;
        }
        j = j + 1;
    }
    pairs
}

/// Performs the force and motion calculations of one tick on all entities:
/// each non-static entity is resolved against a snapshot of all the others
/// taken before any change, then integrated within a viewport of `window`
/// cells. Returns the number of ordered pairs compared.
pub fn update(entities: &mut Vec<Entity>, window: (u16, u16)) -> (pairs: u64)
    requires
        all_wf(old(entities)@),
        old(entities)@.len() <= u32::MAX,
    ensures
        all_wf(final(entities)@),
        final(entities)@.len() == old(entities)@.len(),
        forall|i: int|
            0 <= i < old(entities)@.len() ==> #[trigger] final(entities)@[i] == advanced(
                old(entities)@,
                i,
                window,
            ),
        pairs == dynamic_count(old(entities)@, old(entities)@.len() as int) * (old(
            entities,
        )@.len() - 1),
{
    let n = entities.len();
    let mut snapshot: Vec<Entity> = Vec::new();
    let mut k: usize = 0;
    while k < n
        invariant
            n == entities@.len(),
            k <= n,
            snapshot@ == entities@.subrange(0, k as int),
        decreases n - k,
    {
        snapshot.push(entities[k]);
        k = k + 1;
    }
    assert(snapshot@ == old(entities)@);
    let mut pairs: u64 = 0;
    let mut i: usize = 0;
    while i < n
        invariant
            n == entities@.len(),
            n == snapshot@.len(),
            n <= u32::MAX,
            i <= n,
            snapshot@ == old(entities)@,
            all_wf(snapshot@),
            all_wf(entities@),
            forall|k: int| 0 <= k < i ==> #[trigger] entities@[k] == advanced(snapshot@, k, window),
            forall|k: int| i <= k < n ==> #[trigger] entities@[k] == snapshot@[k],
            pairs == dynamic_count(snapshot@, i as int) * (n - 1),
        decreases n - i,
    {
        let mut e = entities[i];
        assert(snapshot@[i as int].wf());
        proof {
            let dc = dynamic_count(snapshot@, i as int);
            lemma_dynamic_count_bound(snapshot@, i as int);
            assert((dc + 1) * (n - 1) == dc * (n - 1) + (n - 1)) by (nonlinear_arith);
            assert((dc + 1) * (n - 1) <= 0xFFFF_FFFF_FFFF_FFFF) by (nonlinear_arith)
                requires
                    0 <= dc <= i,
                    i < n,
                    n <= 0xFFFF_FFFF,
            ;
        }
        if e.id != EntityType::Static {
            let compared = pairwise(&mut e, i, &snapshot);
            e.update(window);
            entities[i] = e;
            pairs = pairs + compared as u64;
        }
        i = i + 1;
    }
    pairs
}

/// With no static bodies, the physics pass of a tick on `k` entities
/// compares exactly `k * (k - 1)` ordered pairs.
pub proof fn lemma_pair_count(es: Seq<Entity>)
    requires
        forall|k: int| 0 <= k < es.len() ==> #[trigger] es[k].id != EntityType::Static,
    ensures
        dynamic_count(es, es.len() as int) * (es.len() - 1) == es.len() * (es.len() - 1),
{
    lemma_dynamic_count_all(es, es.len() as int);
}

proof fn lemma_dynamic_count_all(es: Seq<Entity>, upto: int)
    requires
        0 <= upto <= es.len(),
        forall|k: int| 0 <= k < es.len() ==> #[trigger] es[k].id != EntityType::Static,
    ensures
        dynamic_count(es, upto) == upto,
    decreases upto,
{
    if upto > 0 {
        lemma_dynamic_count_all(es, upto - 1);
    }
}

/// An entity is never compared with itself: what stands at its own index in
/// the snapshot has no effect on its resolution.
pub proof fn lemma_no_self_pair(me: Entity, es: Seq<Entity>, index: int, other: Entity, upto: int)
    requires
        0 <= index < es.len(),
        0 <= upto <= es.len(),
    ensures
        resolve_against(me, es.update(index, other), index, upto) == resolve_against(
            me,
            es,
            index,
            upto,
        ),
    decreases upto,
{
    if upto > 0 {
        lemma_no_self_pair(me, es, index, other, upto - 1);
    }
}

proof fn lemma_dynamic_count_bound(es: Seq<Entity>, upto: int)
    requires
        0 <= upto,
    ensures
        0 <= dynamic_count(es, upto) <= upto,
    decreases upto,
{
    if upto > 0 {
        lemma_dynamic_count_bound(es, upto - 1);
    }
}

} // verus!
