//! The simulated point mass: its physical state, the force API and the
//! integrator with its boundary constraints.
use crate::fixed::{clamped, constraint, div_round, round_div, SCALE, TICKS_PER_SEC};
use crate::vector::{EuclidianVector, COMPONENT_MAX};
use vstd::prelude::*;

verus! {

/// An RFC 4122 identifier, opaque here.
#[verifier::external_type_specification]
#[verifier::external_body]
pub struct ExUuid(uuid::Uuid);

/// Relies on uuid's `Uuid::new_v4`: a random identifier, of which nothing is promised.
pub assume_specification[ uuid::Uuid::new_v4 ]() -> (r: uuid::Uuid);

/// Glyph drawn on empty cells.
pub const BACKGROUND: char = ' ';

/// Viewport `(width, height)` in cells, used where the terminal size is unknown.
pub const DEFAULT_WINDOW: (u16, u16) = (50, 10);

/// Largest speed along an axis after integration (20 units per second).
pub const MAX_VEL: i64 = 20_000;

/// Largest acceleration along an axis after integration (1000 units per second squared).
pub const MAX_ACC: i64 = 1_000_000;

/// Largest accumulated force along an axis (100 000 units).
pub const MAX_FORCE: i64 = 100_000_000;

/// Largest mass (1000 units).
pub const MAX_MASS: i64 = 1_000_000;

/// Bound on the positions and hit radii that entities hold.
pub const STATE_MAX: i64 = 0x8000_0000;

/// Bound on the velocities that entities hold.
pub const SPEED_BOUND: i64 = 0x4000_0000;

/// How the entity is drawn; it does not affect the physics.
#[derive(Clone, Copy, Debug, PartialEq, Eq, Structural)]
pub enum EntityState {
    Alive,
    Dead,
    Hidden,
}

impl Default for EntityState {
    fn default() -> (r: EntityState)
        ensures
            r == EntityState::Alive,
    {
        EntityState::Alive
    }
}

/// What kind of body the entity is; static bodies never move.
#[derive(Clone, Copy, Debug, PartialEq, Eq, Structural)]
pub enum EntityType {
    Npc,
    Player,
    Static,
}

impl Default for EntityType {
    fn default() -> (r: EntityType)
        ensures
            r == EntityType::Npc,
    {
        EntityType::Npc
    }
}

/// A simulated point mass with a square hitbox. Quantities are fixed-point
/// (`SCALE` steps to the unit).
#[derive(Clone, Copy, Debug)]
pub struct Entity {
    pub id: EntityType,
    pub uuid: uuid::Uuid,
    pub state: EntityState,
    pub pos: (i64, i64),
    pub vel: EuclidianVector,
    /// The acceleration that the last integration derived.
    pub acc: EuclidianVector,
    pub mass: i64,
    /// Half the width of the square hitbox.
    pub hit_radius: i64,
    /// Forces applied since the last integration.
    pub input_force: EuclidianVector,
    /// In contact with a body below (or the floor) during this tick.
    pub grounded: bool,
}

impl Default for Entity {
    /// An NPC at rest at the origin.
    fn default() -> (r: Entity)
        ensures
            r.wf(),
            r.id == EntityType::Npc,
            r.pos == (0i64, 0i64),
            r.state == EntityState::Alive,
            r.mass == SCALE,
            r.hit_radius == SCALE / 2,
            r.vel == EuclidianVector::new_spec(0, 0),
            r.acc == EuclidianVector::new_spec(0, 0),
            r.input_force == EuclidianVector::new_spec(0, 0),
            !r.grounded,
    {
        Entity::new(EntityType::Npc, (0, 0))
    }
}

/// A collection of entities that are treated as a single larger body.
#[derive(Clone, Debug)]
pub struct RigidBody {
    pub parts: Vec<Entity>,
}

/// Why a body could not be created.
#[derive(Clone, Copy, Debug, PartialEq, Eq, Structural)]
pub enum EntityError {
    /// The mass is not in `(0, MAX_MASS]`.
    InvalidMass,
    /// The hit radius is not in `(0, STATE_MAX]`.
    InvalidHitRadius,
    /// A coordinate lies beyond `STATE_MAX`.
    PositionOutOfRange,
}

/// `-bound <= v <= bound`.
pub open spec fn within(v: int, bound: int) -> bool {
    -bound <= v <= bound
}

/// The position lies within `STATE_MAX` on both axes.
pub open spec fn pos_in_range(pos: (i64, i64)) -> bool {
    within(pos.0 as int, STATE_MAX as int) && within(pos.1 as int, STATE_MAX as int)
}

/// Force that drives a body of mass `m` from speed `v` to speed `target` in
/// one tick: `m * (target - v) / time_step`.
pub open spec fn force_for_vel(m: int, v: int, target: int) -> int {
    round_div(m * (target - v) * TICKS_PER_SEC, SCALE as int)
}

/// Force that gives a body of mass `m` the acceleration `a`: `m * a`.
pub open spec fn force_for_acc(m: int, a: int) -> int {
    round_div(m * a, SCALE as int)
}

/// Force that, alone for one tick, moves a body of mass `m` at speed `v`
/// from `p` to `target`: `(2 / 3) * (target - p - v * dt) * m / dt^2`.
pub open spec fn force_for_pos(m: int, p: int, v: int, target: int) -> int {
    round_div(
        2 * (TICKS_PER_SEC * (target - p) - v) * TICKS_PER_SEC * m,
        3 * SCALE,
    )
}

/// Force accumulator after adding `f`, saturated at `MAX_FORCE`.
pub open spec fn accumulate(acc: int, f: int) -> int {
    clamped(acc + f, -MAX_FORCE as int, MAX_FORCE as int)
}

/// Acceleration produced by force `f` on mass `m`: `f / m`.
pub open spec fn accel_of(f: int, m: int) -> int {
    round_div(f * SCALE, m)
}

/// Displacement over one tick at final speed `v` and acceleration `a`:
/// `v * dt + a * dt^2 / 2`.
pub open spec fn displacement(v: int, a: int) -> int {
    round_div(2 * TICKS_PER_SEC * v + a, 2 * TICKS_PER_SEC * TICKS_PER_SEC)
}

/// Upper position limit of an axis of `cells` cells: one cell inside the border.
pub open spec fn upper_limit(cells: u16) -> int {
    (cells - 1) * SCALE
}

/// The entity after the boundary constraints of a viewport of `window` cells:
/// speed and acceleration saturated, position held in `[1, cells - 1]`; an
/// axis whose position reaches a limit loses its speed, and reaching a
/// vertical limit grounds the entity.
pub open spec fn constrained(e: Entity, window: (u16, u16)) -> Entity {
    let vx = clamped(e.vel.x as int, -MAX_VEL as int, MAX_VEL as int);
    let vy = clamped(e.vel.y as int, -MAX_VEL as int, MAX_VEL as int);
    let hit_x = e.pos.0 >= upper_limit(window.0) || e.pos.0 <= SCALE;
    let hit_y = e.pos.1 >= upper_limit(window.1) || e.pos.1 <= SCALE;
    Entity {
        pos: (
            clamped(e.pos.0 as int, SCALE as int, upper_limit(window.0)) as i64,
            clamped(e.pos.1 as int, SCALE as int, upper_limit(window.1)) as i64,
        ),
        vel: EuclidianVector {
            x: if hit_x { 0 } else { vx as i64 },
            y: if hit_y { 0 } else { vy as i64 },
        },
        acc: EuclidianVector {
            x: clamped(e.acc.x as int, -MAX_ACC as int, MAX_ACC as int) as i64,
            y: clamped(e.acc.y as int, -MAX_ACC as int, MAX_ACC as int) as i64,
        },
        grounded: e.grounded || hit_y,
        ..e
    }
}

/// The entity after one semi-implicit Euler step of its accumulated force,
/// before the constraints: the acceleration comes from the force, the speed
/// from the acceleration, the position from both, and the force is consumed.
pub open spec fn stepped(e: Entity) -> Entity {
    let ax = accel_of(e.input_force.x as int, e.mass as int);
    let ay = accel_of(e.input_force.y as int, e.mass as int);
    let vx = e.vel.x + round_div(ax, TICKS_PER_SEC as int);
    let vy = e.vel.y + round_div(ay, TICKS_PER_SEC as int);
    Entity {
        acc: EuclidianVector { x: ax as i64, y: ay as i64 },
        vel: EuclidianVector { x: vx as i64, y: vy as i64 },
        pos: ((e.pos.0 + displacement(vx, ax)) as i64, (e.pos.1 + displacement(vy, ay)) as i64),
        input_force: EuclidianVector { x: 0, y: 0 },
        ..e
    }
}

/// One integration step followed by the boundary constraints.
pub open spec fn integrated(e: Entity, window: (u16, u16)) -> Entity {
    constrained(stepped(e), window)
}

/// Applying the boundary constraints twice gives the same entity as applying
/// them once, on a viewport of at least two cells each way.
pub proof fn lemma_constrain_idempotent(e: Entity, window: (u16, u16))
    requires
        window.0 >= 2,
        window.1 >= 2,
    ensures
        constrained(constrained(e, window), window) == constrained(e, window),
{
}

/// An entity beyond the vertical limits of the viewport is brought back to
/// the limit, loses its vertical speed and is grounded; one beyond the
/// horizontal limits is brought back and loses its horizontal speed.
pub proof fn lemma_constrain_out_of_range(e: Entity, window: (u16, u16))
    requires
        window.0 >= 2,
        window.1 >= 2,
    ensures
        SCALE <= constrained(e, window).pos.0 <= upper_limit(window.0),
        SCALE <= constrained(e, window).pos.1 <= upper_limit(window.1),
        (e.pos.1 > upper_limit(window.1) || e.pos.1 < SCALE) ==> constrained(e, window).vel.y == 0
            && constrained(e, window).grounded,
        (e.pos.0 > upper_limit(window.0) || e.pos.0 < SCALE) ==> constrained(e, window).vel.x
            == 0,
{
}

/// Saturates `v` into `[-limit, limit]`.
fn saturate(v: i128, limit: i64) -> (r: i64)
    requires
        limit >= 0,
    ensures
        r == clamped(v as int, -limit as int, limit as int),
{
    if v >= limit as i128 {
        limit
    } else if v <= -(limit as i128) {
        -limit
    } else {
        v as i64
    }
}

impl Entity {
    /// The invariant of a body: positive mass and hit radius, and every
    /// quantity within the bounds that the arithmetic takes.
    pub open spec fn wf(&self) -> bool {
        &&& 0 < self.mass <= MAX_MASS
        &&& 0 < self.hit_radius <= STATE_MAX
        &&& pos_in_range(self.pos)
        &&& within(self.vel.x as int, SPEED_BOUND as int)
        &&& within(self.vel.y as int, SPEED_BOUND as int)
        &&& within(self.acc.x as int, COMPONENT_MAX as int)
        &&& within(self.acc.y as int, COMPONENT_MAX as int)
        &&& within(self.input_force.x as int, MAX_FORCE as int)
        &&& within(self.input_force.y as int, MAX_FORCE as int)
    }

    /// A body of the given kind at rest at `pos`, of mass 1 and hit radius 0.5.
    pub fn new(id: EntityType, pos: (i64, i64)) -> (r: Entity)
        requires
            pos_in_range(pos),
        ensures
            r.wf(),
            r.id == id,
            r.pos == pos,
            r.state == EntityState::Alive,
            r.mass == SCALE,
            r.hit_radius == SCALE / 2,
            r.vel == EuclidianVector::new_spec(0, 0),
            r.acc == EuclidianVector::new_spec(0, 0),
            r.input_force == EuclidianVector::new_spec(0, 0),
            !r.grounded,
    {
        Entity {
            id,
            uuid: uuid::Uuid::new_v4(),
            state: EntityState::Alive,
            pos,
            vel: EuclidianVector::new(0, 0),
            acc: EuclidianVector::new(0, 0),
            mass: SCALE,
            hit_radius: SCALE / 2,
            input_force: EuclidianVector::new(0, 0),
            grounded: false,
        }
    }

    /// A body at rest with the given mass and hit radius; the configuration
    /// is rejected when the mass or radius is not positive (or too large),
    /// or the position is out of range.
    pub fn with_body(id: EntityType, pos: (i64, i64), mass: i64, hit_radius: i64) -> (r: Result<
        Entity,
        EntityError,
    >)
        ensures
            !(0 < mass <= MAX_MASS) ==> r == Err::<Entity, EntityError>(EntityError::InvalidMass),
            (0 < mass <= MAX_MASS) && !(0 < hit_radius <= STATE_MAX) ==> r == Err::<
                Entity,
                EntityError,
            >(EntityError::InvalidHitRadius),
            (0 < mass <= MAX_MASS) && (0 < hit_radius <= STATE_MAX) && !pos_in_range(pos) ==> r
                == Err::<Entity, EntityError>(EntityError::PositionOutOfRange),
            (0 < mass <= MAX_MASS) && (0 < hit_radius <= STATE_MAX) && pos_in_range(pos) ==> (r
                matches Ok(e) && e.wf() && e.id == id && e.pos == pos && e.mass == mass
                && e.hit_radius == hit_radius && e.state == EntityState::Alive && e.vel
                == EuclidianVector::new_spec(0, 0) && e.input_force == EuclidianVector::new_spec(
                0,
                0,
            ) && !e.grounded),
    {
        if mass <= 0 || mass > MAX_MASS {
            return Err(EntityError::InvalidMass);
        }
        if hit_radius <= 0 || hit_radius > STATE_MAX {
            return Err(EntityError::InvalidHitRadius);
        }
        if pos.0 < -STATE_MAX || pos.0 > STATE_MAX || pos.1 < -STATE_MAX || pos.1 > STATE_MAX {
            return Err(EntityError::PositionOutOfRange);
        }
        let mut e = Entity::new(id, pos);
        e.mass = mass;
        e.hit_radius = hit_radius;
        Ok(e)
    }

    /// Adds `force` to the force accumulator, saturating each axis at
    /// `MAX_FORCE`. Nothing else changes until the next integration.
    pub fn apply_force(&mut self, force: EuclidianVector)
        requires
            old(self).wf(),
        ensures
            final(self).wf(),
            final(self).input_force.x == accumulate(old(self).input_force.x as int, force.x as int),
            final(self).input_force.y == accumulate(old(self).input_force.y as int, force.y as int),
            *final(self) == (Entity { input_force: final(self).input_force, ..*old(self) }),
    {
        let fx = saturate(self.input_force.x as i128 + force.x as i128, MAX_FORCE);
        let fy = saturate(self.input_force.y as i128 + force.y as i128, MAX_FORCE);
        self.input_force = EuclidianVector::new(fx, fy);
    }

    /// Returns the force that gives the entity the acceleration `(ax, ay)`.
    pub fn target_acc(&mut self, ax: i64, ay: i64) -> (r: EuclidianVector)
        requires
            old(self).wf(),
            within(ax as int, COMPONENT_MAX as int),
            within(ay as int, COMPONENT_MAX as int),
        ensures
            *final(self) == *old(self),
            r.x == force_for_acc(old(self).mass as int, ax as int),
            r.y == force_for_acc(old(self).mass as int, ay as int),
    {
        let m = self.mass as i128;
        proof {
            lemma_mass_product(self.mass as int, ax as int);
            lemma_mass_product(self.mass as int, ay as int);
        }
        let x = div_round(m * ax as i128, SCALE as i128);
        let y = div_round(m * ay as i128, SCALE as i128);
        proof {
            crate::vector::lemma_round_div_bound(self.mass * ax, 1000, 0x1_0000_0000_0000);
            crate::vector::lemma_round_div_bound(self.mass * ay, 1000, 0x1_0000_0000_0000);
        }
        EuclidianVector::new(x as i64, y as i64)
    }

    /// Returns the force that takes the entity to the velocity `(vx, vy)` in
    /// one tick.
    pub fn target_vel(&mut self, vx: i64, vy: i64) -> (r: EuclidianVector)
        requires
            old(self).wf(),
            within(vx as int, COMPONENT_MAX as int),
            within(vy as int, COMPONENT_MAX as int),
        ensures
            *final(self) == *old(self),
            r.x == force_for_vel(old(self).mass as int, old(self).vel.x as int, vx as int),
            r.y == force_for_vel(old(self).mass as int, old(self).vel.y as int, vy as int),
    {
        let x = vel_force(self.mass, self.vel.x, vx);
        let y = vel_force(self.mass, self.vel.y, vy);
        EuclidianVector::new(x, y)
    }

    /// Returns the force that, acting alone for one tick, takes the entity to
    /// the position `(x, y)`.
    pub fn target_pos(&mut self, x: i64, y: i64) -> (r: EuclidianVector)
        requires
            old(self).wf(),
            within(x as int, COMPONENT_MAX as int),
            within(y as int, COMPONENT_MAX as int),
        ensures
            *final(self) == *old(self),
            r.x == force_for_pos(
                old(self).mass as int,
                old(self).pos.0 as int,
                old(self).vel.x as int,
                x as int,
            ),
            r.y == force_for_pos(
                old(self).mass as int,
                old(self).pos.1 as int,
                old(self).vel.y as int,
                y as int,
            ),
    {
        let fx = pos_force(self.mass, self.pos.0, self.vel.x, x);
        let fy = pos_force(self.mass, self.pos.1, self.vel.y, y);
        EuclidianVector::new(fx, fy)
    }

    /// Integrates the accumulated force over one tick (semi-implicit Euler:
    /// `a = F / m`, `v += a dt`, `x += v dt + a dt^2 / 2`), consumes the force,
    /// then applies the boundary constraints of a viewport of `window` cells.
    pub fn update(&mut self, window: (u16, u16))
        requires
            old(self).wf(),
        ensures
            final(self).wf(),
            *final(self) == integrated(*old(self), window),
    {
        let f = self.input_force;
        let m = self.mass as i128;
        proof {
            lemma_accel_bound(f.x as int, self.mass as int);
            lemma_accel_bound(f.y as int, self.mass as int);
        }
        let ax = div_round(f.x as i128 * SCALE as i128, m);
        let ay = div_round(f.y as i128 * SCALE as i128, m);
        let tick = TICKS_PER_SEC as i128;
        proof {
            crate::vector::lemma_round_div_bound(ax as int, 100, 0x8000_0000);
            crate::vector::lemma_round_div_bound(ay as int, 100, 0x8000_0000);
        }
        let vx = self.vel.x as i128 + div_round(ax, tick);
        let vy = self.vel.y as i128 + div_round(ay, tick);
        proof {
            lemma_displacement_bound(vx as int, ax as int);
            lemma_displacement_bound(vy as int, ay as int);
        }
        let px = self.pos.0 as i128 + div_round(2 * tick * vx + ax, 2 * tick * tick);
        let py = self.pos.1 as i128 + div_round(2 * tick * vy + ay, 2 * tick * tick);
        self.acc = EuclidianVector::new(ax as i64, ay as i64);
        self.vel = EuclidianVector::new(vx as i64, vy as i64);
        self.pos = (px as i64, py as i64);
        self.input_force = EuclidianVector::new(0, 0);
        self.constrain(window);
    }

    /// Applies the boundary constraints of a viewport of `window` cells (see
    /// `constrained`).
    pub fn constrain(&mut self, window: (u16, u16))
        requires
            within(old(self).pos.0 as int, 0x1_0000_0000),
            within(old(self).pos.1 as int, 0x1_0000_0000),
        ensures
            *final(self) == constrained(*old(self), window),
    {
        let upper_x = (window.0 as i64 - 1) * SCALE;
        let upper_y = (window.1 as i64 - 1) * SCALE;
        let mut vx = self.vel.x;
        let mut vy = self.vel.y;
        constraint(&mut vx, -MAX_VEL, MAX_VEL);
        constraint(&mut vy, -MAX_VEL, MAX_VEL);
        let mut ax = self.acc.x;
        let mut ay = self.acc.y;
        constraint(&mut ax, -MAX_ACC, MAX_ACC);
        constraint(&mut ay, -MAX_ACC, MAX_ACC);
        let mut px = self.pos.0;
        let mut py = self.pos.1;
        if constraint(&mut px, SCALE, upper_x) {
            vx = 0;
        }
        if constraint(&mut py, SCALE, upper_y) {
            vy = 0;
            self.grounded = true;
        }
        self.vel = EuclidianVector::new(vx, vy);
        self.acc = EuclidianVector::new(ax, ay);
        self.pos = (px, py);
    }
}

/// `force_for_vel` on in-range arguments.
fn vel_force(m: i64, v: i64, target: i64) -> (r: i64)
    requires
        0 < m <= MAX_MASS,
        within(v as int, STATE_MAX as int),
        within(target as int, COMPONENT_MAX as int),
    ensures
        r == force_for_vel(m as int, v as int, target as int),
{
    let dv = target as i128 - v as i128;
    proof {
        assert(-0x1000_0000_0000_0000 <= m * dv * 100 <= 0x1000_0000_0000_0000) by (nonlinear_arith)
            requires
                0 < m <= 1_000_000,
                -0x2_0000_0000 <= dv <= 0x2_0000_0000,
        ;
    }
    let n = m as i128 * dv * TICKS_PER_SEC as i128;
    let r = div_round(n, SCALE as i128);
    proof {
        crate::vector::lemma_round_div_bound(n as int, 1000, 0x10_0000_0000_0000);
    }
    r as i64
}

/// `force_for_pos` on in-range arguments.
fn pos_force(m: i64, p: i64, v: i64, target: i64) -> (r: i64)
    requires
        0 < m <= MAX_MASS,
        within(p as int, STATE_MAX as int),
        within(v as int, STATE_MAX as int),
        within(target as int, COMPONENT_MAX as int),
    ensures
        r == force_for_pos(m as int, p as int, v as int, target as int),
{
    let tick = TICKS_PER_SEC as i128;
    let d = tick * (target as i128 - p as i128) - v as i128;
    proof {
        assert(-0x10_0000_0000_0000_0000 <= 2 * d * 100 * m <= 0x10_0000_0000_0000_0000)
            by (nonlinear_arith)
            requires
                0 < m <= 1_000_000,
                -0x100_0000_0000 <= d <= 0x100_0000_0000,
        ;
    }
    let n = 2 * d * tick * m as i128;
    let r = div_round(n, 3 * SCALE as i128);
    proof {
        crate::vector::lemma_round_div_bound(n as int, 3000, 0x200_0000_0000_0000);
    }
    r as i64
}

proof fn lemma_mass_product(m: int, a: int)
    requires
        0 < m <= MAX_MASS,
        within(a, COMPONENT_MAX as int),
    ensures
        within(m * a, 0x100_0000_0000_0000),
{
    assert(within(m * a, 0x100_0000_0000_0000)) by (nonlinear_arith)
        requires
            0 < m <= 1_000_000,
            -0x1_0000_0000 <= a <= 0x1_0000_0000,
    ;
}

proof fn lemma_accel_bound(f: int, m: int)
    requires
        within(f, MAX_FORCE as int),
        1 <= m,
    ensures
        within(f * SCALE, 0x20_0000_0000),
        within(round_div(f * SCALE, m), 0x20_0000_0000),
{
    assert(within(f * 1000, 0x20_0000_0000)) by (nonlinear_arith)
        requires
            -100_000_000 <= f <= 100_000_000,
    ;
    crate::vector::lemma_round_div_bound(f * SCALE, m, 0x20_0000_0000);
}

proof fn lemma_displacement_bound(v: int, a: int)
    requires
        within(v, 0x1_0000_0000),
        within(a, 0x20_0000_0000),
    ensures
        within(displacement(v, a), 0x1000_0000),
{
    crate::vector::lemma_round_div_bound(200 * v + a, 20000, 0x1000_0000);
}

} // verus!
