//! Core simulation of a 2D side-scrolling platformer: player kinematics with a
//! ballistic jump, a grappling-hook state machine, enemy patrol with an
//! ease-in/ease-out speed curve, coin collection, contact damage, a parallax
//! background, and the level/game lifecycle.
//!
//! All world quantities are integers in fixed-point "milliunits": one world
//! unit is `MILLI` milliunits. Time advances in discrete ticks of the
//! fixed-step schedule (`TICKS_PER_SECOND` ticks per second). The engine-side
//! collaborators (renderer, physics solver, input device, asset loader) are
//! out of scope: their per-tick answers (grounded flag, collision lists,
//! raycast hits, cursor position) come in as plain values, and the simulation
//! hands intended translations and state transitions back.

use vstd::prelude::*;

pub mod animated_sprite;
pub mod background;
pub mod camera;
pub mod character;
pub mod collect_coin;
pub mod damage;
pub mod enemy;
pub mod grapple;
pub mod health;
pub mod jump;
pub mod level;
pub mod math;
pub mod player;
pub mod state;
pub mod world;

verus! {

/// Milliunits per world unit: the fixed-point scale of every coordinate.
pub const MILLI: i64 = 1000;

/// Ticks of the fixed-step schedule per second.
pub const TICKS_PER_SECOND: i64 = 60;

/// Side of one level tile, in milliunits (64 world units).
pub const TILE: i64 = 64000;

/// Largest coordinate magnitude the world admits, in milliunits.
/// Every position, boundary and size is kept inside this range so that the
/// fixed-point products below stay well within `i64`.
pub const COORD_LIMIT: i64 = 1_000_000_000;

/// A coordinate the world admits.
pub open spec fn in_world(x: i64) -> bool {
    -COORD_LIMIT <= x <= COORD_LIMIT
}

/// Hit points the player starts with.
pub const INITIAL_HEALTH: i64 = 100;

/// Base vertical translation each tick: the downward acceleration of
/// 9.81 world units, in milliunits.
pub const GRAVITY_Y: i64 = -9810;

/// Horizontal walking speed of the player, in milliunits per tick.
pub const MOVEMENT_SPEED: i64 = 3000;

/// Reaching this x-coordinate (32 tiles) wins the game, in milliunits.
pub const WIN_X: i64 = 2_048_000;

/// Apex of the player's jump above lift-off, in milliunits.
pub const JUMP_HEIGHT: i64 = 1500;

/// Ticks from lift-off to the apex of the jump.
pub const JUMP_TIME_TO_PEAK: i64 = 30;

/// Length of the pull vector applied each tick while grappling, in world
/// units (the pull replaces gravity and walking).
pub const PULL_STRENGTH: i64 = 10;

/// Spacing of the aim guideline dots, in milliunits.
pub const GUIDELINE_DISTANCE: i64 = 50_000;

/// Side of one guideline dot, in milliunits.
pub const GUIDELINE_SIZE: i64 = 10_000;

/// Floor on an enemy's horizontal speed so it never freezes at a patrol
/// boundary, in milliunits per tick.
pub const ENEMY_MIN_SPEED: i64 = 100;

/// Deepest background depth: layers carry a depth in `0 ..= BG_MAX`.
pub const BG_MAX: i64 = 8;

} // verus!
