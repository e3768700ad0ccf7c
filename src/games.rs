//! The sandbox game: input decoding, player control, global forces and the
//! physics of one tick.
use crate::collision::{advanced, all_wf, update};
use crate::entity::{
    accumulate, force_for_acc, force_for_vel, within, Entity, EntityState, EntityType,
};
use crate::fixed::{div_round, round_div, SCALE};
use crate::user_input::{Button, Cmd, Input, InputKey};
use crate::vector::EuclidianVector;
use vstd::prelude::*;

verus! {

/// The games that can be played.
#[derive(Clone, Copy, Debug, PartialEq, Eq, Structural)]
pub enum Game {
    Sandbox,
    Pong,
}

/// Number of games.
pub const GAME_COUNT: usize = 2;

/// Position of a game in the menu.
pub open spec fn game_index(g: Game) -> int {
    match g {
        Game::Sandbox => 0,
        Game::Pong => 1,
    }
}

impl Game {
    /// The game at a menu position, if there is one.
    pub fn from_repr(index: usize) -> (r: Option<Game>)
        ensures
            r matches Some(g) ==> game_index(g) == index,
            r is None <==> index >= GAME_COUNT,
    {
        if index == 0 {
            Some(Game::Sandbox)
        } else if index == 1 {
            Some(Game::Pong)
        } else {
            None
        }
    }

    /// The menu position of the game.
    pub fn index(&self) -> (r: usize)
        ensures
            r == game_index(*self),
    {
        match self {
            Game::Sandbox => 0,
            Game::Pong => 1,
        }
    }
}

/// Horizontal control speed, 20 units per second.
pub const MOVE_SPEED_X: i64 = 20_000;

/// Vertical control speed, 8 units per second.
pub const MOVE_SPEED_Y: i64 = 8_000;

/// Share of horizontal control that remains while airborne (2.5 %, in thousandths).
pub const AIR_CONTROL: i64 = 25;

/// Downward acceleration of gravity, 9.81 units per second squared.
pub const GRAVITY: i64 = 9_810;

/// Speed kept per tick while grounded (0.9) and airborne (0.99), in thousandths.
pub const GROUND_FRICTION: i64 = 900;

pub const AIR_FRICTION: i64 = 990;

/// The target velocity of a move command on a player moving at `(vx, vy)`:
/// a purely vertical move keeps the horizontal speed, a purely horizontal one
/// keeps the vertical speed, and anything else sets both.
pub open spec fn move_target(vx: int, vy: int, x: i8, y: i8) -> (int, int) {
    if x == 0 && y != 0 {
        (vx, MOVE_SPEED_Y * y)
    } else if y == 0 && x != 0 {
        (MOVE_SPEED_X * x, vy)
    } else {
        (MOVE_SPEED_X * x, MOVE_SPEED_Y * y)
    }
}

/// The control force of a move command: the force towards `move_target`;
/// while airborne the vertical part is dropped and the horizontal part cut to
/// `AIR_CONTROL` thousandths.
pub open spec fn move_force(p: Entity, x: i8, y: i8) -> (int, int) {
    let t = move_target(p.vel.x as int, p.vel.y as int, x, y);
    let fx = force_for_vel(p.mass as int, p.vel.x as int, t.0);
    let fy = force_for_vel(p.mass as int, p.vel.y as int, t.1);
    if p.grounded {
        (fx, fy)
    } else {
        (round_div(fx * AIR_CONTROL, 1000), 0)
    }
}

/// The entity with `(fx, fy)` added to its force accumulator.
pub open spec fn pushed(e: Entity, fx: int, fy: int) -> Entity {
    Entity {
        input_force: EuclidianVector {
            x: accumulate(e.input_force.x as int, fx) as i64,
            y: accumulate(e.input_force.y as int, fy) as i64,
        },
        ..e
    }
}

/// A freshly spawned entity: everything but its identifier is fixed.
pub open spec fn is_spawned(e: Entity, id: EntityType, x: u16, y: u16) -> bool {
    &&& e.wf()
    &&& e.id == id
    &&& e.pos == ((x * SCALE) as i64, (y * SCALE) as i64)
    &&& e.state == EntityState::Alive
    &&& e.mass == SCALE
    &&& e.hit_radius == SCALE / 2
    &&& e.vel == EuclidianVector::new_spec(0, 0)
    &&& e.acc == EuclidianVector::new_spec(0, 0)
    &&& e.input_force == EuclidianVector::new_spec(0, 0)
    &&& !e.grounded
}

/// The entity after gravity and friction: a force of `m * GRAVITY` downwards,
/// then a force that decays the horizontal speed by the friction of its state.
pub open spec fn with_global_forces(e: Entity) -> Entity {
    let g = pushed(e, force_for_acc(e.mass as int, 0), force_for_acc(e.mass as int, GRAVITY as int));
    let keep = if e.grounded {
        GROUND_FRICTION
    } else {
        AIR_FRICTION
    };
    let target = round_div(e.vel.x * keep, 1000);
    pushed(
        g,
        force_for_vel(e.mass as int, e.vel.x as int, target),
        force_for_vel(e.mass as int, e.vel.y as int, e.vel.y as int),
    )
}

/// A command that ends the game.
pub open spec fn ends_game(cmd: Cmd) -> bool {
    cmd == Cmd::EXIT || cmd == Cmd::RETURN
}

/// The entities after control: the player (last) receives the control force
/// of a move; a spawn puts `spawned` just before the player.
pub open spec fn controlled(es: Seq<Entity>, cmd: Option<Cmd>, spawned: Entity) -> Seq<Entity> {
    let player = es.last();
    let rest = es.drop_last();
    match cmd {
        Some(Cmd::MOVE(x, y)) => {
            let f = move_force(player, x, y);
            rest.push(pushed(player, f.0, f.1))
        },
        Some(Cmd::SPAWN(_, _, _)) => rest.push(spawned).push(player),
        _ => es,
    }
}

/// `after` is `before` after the physics of a tick on command `cmd`, where
/// `spawned` is the entity that a spawn command created: the command is
/// applied, gravity and friction act on every entity, then each entity
/// advances (see `advanced`).
pub open spec fn ticked(
    before: Seq<Entity>,
    cmd: Option<Cmd>,
    spawned: Entity,
    window: (u16, u16),
    after: Seq<Entity>,
) -> bool {
    let mid = controlled(before, cmd, spawned).map_values(|e: Entity| with_global_forces(e));
    &&& (cmd matches Some(Cmd::SPAWN(x, y, id)) ==> is_spawned(spawned, id, x, y))
    &&& after.len() == mid.len()
    &&& forall|i: int| 0 <= i < mid.len() ==> #[trigger] after[i] == advanced(mid, i, window)
}

/// Interface for the sandbox game.
pub struct SandboxGame;

impl SandboxGame {
    /// Parses an input event into the command it means in this game: `wasd`
    /// move, `q` and Esc exit, a left click spawns an NPC and a right click a
    /// static body; anything else is passed on as `DEBUG`.
    pub fn parse_event(event: Input) -> (r: Cmd)
        ensures
            r == match event {
                Input::Key(InputKey::Char('d')) => Cmd::MOVE(1, 0),
                Input::Key(InputKey::Char('a')) => Cmd::MOVE(-1i8, 0i8),
                Input::Key(InputKey::Char('w')) => Cmd::MOVE(0i8, -1i8),
                Input::Key(InputKey::Char('s')) => Cmd::MOVE(0, 1),
                Input::Key(InputKey::Char('q')) | Input::Key(InputKey::Esc) => Cmd::EXIT,
                Input::MousePress(Button::Left, x, y) => Cmd::SPAWN(x, y, EntityType::Npc),
                Input::MousePress(Button::Right, x, y) => Cmd::SPAWN(x, y, EntityType::Static),
                _ => Cmd::DEBUG(event),
            },
    {
        match event {
            Input::Key(key) => match key {
                InputKey::Char('d') => Cmd::MOVE(1, 0),
                InputKey::Char('a') => Cmd::MOVE(-1i8, 0i8),
                InputKey::Char('w') => Cmd::MOVE(0i8, -1i8),
                InputKey::Char('s') => Cmd::MOVE(0, 1),
                InputKey::Char('q') | InputKey::Esc => Cmd::EXIT,
                _ => Cmd::DEBUG(Input::Key(key)),
            },
            Input::MousePress(button, x, y) => match button {
                Button::Left => Cmd::SPAWN(x, y, EntityType::Npc),
                Button::Right => Cmd::SPAWN(x, y, EntityType::Static),
                _ => Cmd::DEBUG(Input::MousePress(button, x, y)),
            },
            _ => Cmd::DEBUG(event),
        }
    }

    /// Applies a control command: a move pushes the player (see `move_force`),
    /// a spawn appends a new entity at the given cell. Returns the command.
    pub fn process_cmds(player: &mut Entity, entities: &mut Vec<Entity>, cmd: Cmd) -> (r: Cmd)
        requires
            old(player).wf(),
            all_wf(old(entities)@),
        ensures
            r == cmd,
            final(player).wf(),
            all_wf(final(entities)@),
            cmd matches Cmd::MOVE(x, y) ==> (*final(player) == pushed(
                *old(player),
                move_force(*old(player), x, y).0,
                move_force(*old(player), x, y).1,
            ) && final(entities)@ == old(entities)@),
            cmd matches Cmd::SPAWN(x, y, id) ==> (*final(player) == *old(player)
                && final(entities)@.len() == old(entities)@.len() + 1
                && final(entities)@.drop_last() == old(entities)@
                && is_spawned(final(entities)@.last(), id, x, y)),
            !(cmd is MOVE || cmd is SPAWN) ==> *final(player) == *old(player) && final(entities)@
                == old(entities)@,
    {
        match cmd {
            Cmd::MOVE(x, y) => {
                let vx = player.vel.x;
                let vy = player.vel.y;
                let mut move_force = if x == 0 && y != 0 {
                    player.target_vel(vx, MOVE_SPEED_Y * y as i64)
                } else if y == 0 && x != 0 {
                    player.target_vel(MOVE_SPEED_X * x as i64, vy)
                } else {
                    player.target_vel(MOVE_SPEED_X * x as i64, MOVE_SPEED_Y * y as i64)
                };
                if !player.grounded {
                    proof {
                        crate::vector::lemma_round_div_bound(
                            move_force.x * AIR_CONTROL,
                            1000,
                            0x1000_0000_0000_0000,
                        );
                    }
                    move_force.y = 0;
                    move_force.x = div_round(move_force.x as i128 * AIR_CONTROL as i128, 1000) as i64;
                }
                player.apply_force(move_force);
            },
            Cmd::SPAWN(x, y, id) => {
                let e = Entity::new(id, (x as i64 * SCALE, y as i64 * SCALE));
                entities.push(e);
                assert(entities@.drop_last() == old(entities)@);
            },
            _ => {},
        }
        cmd
    }

    /// Runs the physics of one tick on `entities`, whose last entry is the
    /// player: a command that ends the game is returned at once and changes
    /// nothing; otherwise the command (if any) is applied, then gravity and
    /// friction act on every entity, then collisions are resolved and every
    /// non-static entity is integrated within a viewport of `window` cells.
    pub fn tick(entities: &mut Vec<Entity>, cmd: Option<Cmd>, window: (u16, u16)) -> (r: Option<
        Cmd,
    >)
        requires
            old(entities)@.len() >= 1,
            old(entities)@.len() < u32::MAX,
            all_wf(old(entities)@),
        ensures
            all_wf(final(entities)@),
            (cmd matches Some(c) && ends_game(c)) ==> (r == cmd && final(entities)@ == old(
                entities,
            )@),
            !(cmd matches Some(c) && ends_game(c)) ==> (r is None && exists|spawned: Entity|
                #[trigger] ticked(old(entities)@, cmd, spawned, window, final(entities)@)),
    {
        if let Some(c) = cmd {
            if matches!(c, Cmd::EXIT) || matches!(c, Cmd::RETURN) {
                return Some(c);
            }
        }
        let ghost start = entities@;
        let mut player = match entities.pop() {
            Some(p) => p,
            None => {
                return None;
            },
        };
        assert(entities@ == start.drop_last());
        assert(all_wf(entities@)) by {
            assert forall|k: int| 0 <= k < entities@.len() implies #[trigger] entities@[k].wf() by {
                assert(entities@[k] == start[k]);
            }
        }
        assert(player == start.last());
        assert(start[start.len() - 1].wf());
        let ghost mut spawned: Entity = player;
        if let Some(c) = cmd {
            SandboxGame::process_cmds(&mut player, entities, c);
            proof {
                if c is SPAWN {
                    spawned = entities@.last();
                }
            }
        }
        entities.push(player);
        let ghost controlled_es = entities@;
        assert(controlled_es == controlled(start, cmd, spawned));
        let n = entities.len();
        let mut i: usize = 0;
        while i < n
            invariant
                n == entities@.len(),
                n == controlled_es.len(),
                i <= n,
                all_wf(controlled_es),
                all_wf(entities@),
                forall|k: int| 0 <= k < i ==> #[trigger] entities@[k] == with_global_forces(controlled_es[k]),
                forall|k: int| i <= k < n ==> #[trigger] entities@[k] == controlled_es[k],
            decreases n - i,
        {
            let mut e = entities[i];
            assert(controlled_es[i as int].wf());
            SandboxGame::apply_global_forces(&mut e);
            entities[i] = e;
            i = i + 1;
        }
        let ghost mid = controlled_es.map_values(|e: Entity| with_global_forces(e));
        assert(entities@ == mid);
        update(entities, window);
        assert(ticked(start, cmd, spawned, window, entities@));
        None
    }

    /// Applies gravity and friction to an entity (see `with_global_forces`).
    pub fn apply_global_forces(entity: &mut Entity)
        requires
            old(entity).wf(),
        ensures
            final(entity).wf(),
            *final(entity) == with_global_forces(*old(entity)),
    {
        let gravity = entity.target_acc(0, GRAVITY);
        entity.apply_force(gravity);
        let keep = if entity.grounded {
            GROUND_FRICTION
        } else {
            AIR_FRICTION
        };
        proof {
            assert(within(entity.vel.x * keep, 1000int * 0x4000_0000)) by (nonlinear_arith)
                requires
                    -0x4000_0000 <= entity.vel.x <= 0x4000_0000,
                    0 <= keep <= 1000,
            ;
            crate::vector::lemma_round_div_bound(entity.vel.x * keep, 1000, 0x4000_0000);
        }
        let target = div_round(entity.vel.x as i128 * keep as i128, 1000) as i64;
        let vy = entity.vel.y;
        let friction = entity.target_vel(target, vy);
        entity.apply_force(friction);
    }
}

} // verus!
