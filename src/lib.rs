//! A discrete-time 2D point-mass physics and collision engine, in fixed-point
//! arithmetic, with the control logic of a small terminal sandbox game.
//!
//! Units: lengths, velocities, accelerations, forces and masses are `i64`
//! counts of thousandths (`fixed::SCALE`); a tick lasts 0.01 s
//! (`fixed::TICKS_PER_SEC`); angles are hundredths of a degree, with +x east
//! and +y south. Divisions round to the nearest step.
//!
//! Each tick (`games::SandboxGame::tick`) applies the control command to the
//! player, gravity and friction to every entity, then resolves contacts
//! against a snapshot of the entities taken before any change (so the result
//! does not depend on the order in which entities are processed) and
//! integrates every non-static entity.
pub mod fixed;
pub mod vector;
pub mod primitives;
pub mod angles;
pub mod entity;
pub mod collision;
pub mod user_input;
pub mod games;
pub mod ui;
pub mod app;
pub mod scene;
pub mod scene_map;
pub mod physics;
