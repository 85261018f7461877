//! Enemy patrol: each enemy oscillates between its two horizontal
//! boundaries. Speed follows a symmetric ease-in/ease-out taper — the square
//! root of the distance-derived taper value, fastest at the midpoint, plus a
//! small floor so the enemy never freezes at a wall — and the sprite faces
//! the way the enemy walks.

use vstd::prelude::*;

use crate::math::{div_trunc, div_trunc_i64, isqrt, isqrt_spec, Vec2i};

verus! {

/// How far, in milliunits, an enemy may overshoot a patrol boundary before
/// its x-coordinate is clamped: one tick of the largest patrol step.
pub const PATROL_EPSILON: i64 = 4000;

/// Largest patrol boundary magnitude, in milliunits; enough under the world
/// limit that a clamped position still lies in the world.
pub const PATROL_BOUNDARY_LIMIT: i64 = 900_000_000;

/// Which way an enemy walks.
#[derive(Clone, Copy, Debug, PartialEq, Eq, Structural)]
pub enum Direction {
    Left,
    Right,
}

impl Direction {
    /// The sign of the walk: -1 leftward, +1 rightward.
    pub fn signum(&self) -> (s: i64)
        ensures
            *self is Right ==> s == 1,
            *self is Left ==> s == -1,
    {
        match self {
            Direction::Left => -1,
            Direction::Right => 1,
        }
    }
}

/// A patrolling enemy: its walk state and its patrol range.
#[derive(Clone, Copy, Debug, PartialEq, Eq, Structural)]
pub struct Enemy {
    pub direction: Direction,
    /// Current intended speed, in milliunits per tick; the patrol writes `x`.
    pub speed: Vec2i,
    /// Floor on the horizontal speed magnitude, in milliunits per tick.
    pub min_speed: i64,
    /// Left end of the patrol, in milliunits.
    pub left_boundary: i64,
    /// Right end of the patrol, in milliunits.
    pub right_boundary: i64,
}

impl Enemy {
    /// Boundaries sit in the world with the left one strictly first, the
    /// speed floor is small and non-negative, and the current speed lies in
    /// the world's range.
    pub open spec fn wf(self) -> bool {
        &&& -PATROL_BOUNDARY_LIMIT <= self.left_boundary
        &&& self.right_boundary <= PATROL_BOUNDARY_LIMIT
        &&& self.left_boundary < self.right_boundary
        &&& 0 <= self.min_speed <= crate::MILLI
        &&& -crate::COORD_LIMIT <= self.speed.x <= crate::COORD_LIMIT
        &&& -crate::COORD_LIMIT <= self.speed.y <= crate::COORD_LIMIT
    }

    /// A new enemy walking right between the two boundaries, with the
    /// default floor on its speed.
    pub fn new(speed: Vec2i, left_boundary: i64, right_boundary: i64) -> (e: Enemy)
        requires
            -PATROL_BOUNDARY_LIMIT <= left_boundary,
            right_boundary <= PATROL_BOUNDARY_LIMIT,
            left_boundary < right_boundary,
            -crate::COORD_LIMIT <= speed.x <= crate::COORD_LIMIT,
            -crate::COORD_LIMIT <= speed.y <= crate::COORD_LIMIT,
        ensures
            e.wf(),
            e.direction is Right,
            e.speed == speed,
            e.min_speed == crate::ENEMY_MIN_SPEED,
            e.left_boundary == left_boundary,
            e.right_boundary == right_boundary,
    {
        Enemy {
            direction: Direction::Right,
            speed,
            min_speed: crate::ENEMY_MIN_SPEED,
            left_boundary,
            right_boundary,
        }
    }
}

/// The walk direction after looking at the position: at or past the left
/// boundary the enemy turns right, at or past the right boundary it turns
/// left, strictly between them it keeps going.
pub open spec fn flipped_direction(d: Direction, x: int, l: int, r: int) -> Direction {
    if x <= l {
        Direction::Right
    } else if x >= r {
        Direction::Left
    } else {
        d
    }
}

/// The ease-in/ease-out taper at position `x` walking `d`: the progress
/// through the patrol in thousandths, folded so it peaks with 500 at the
/// midpoint and vanishes at the boundary the walk moves away from, floored
/// at zero outside the patrol range.
pub open spec fn patrol_taper(x: int, l: int, r: int, d: Direction) -> int {
    let percent = div_trunc((x - l) * 1000, r - l);
    let rel = if d is Right { percent } else { 1000 - percent };
    let t = if rel < 500 { rel } else { 1000 - rel };
    if t < 0 { 0 } else { t }
}

/// The signed horizontal patrol speed at position `x` walking `d` (already
/// flipped), in milliunits per tick: square root of the taper, plus the
/// floor `min`, doubled, signed by the walk direction.
pub open spec fn patrol_speed_x(x: int, l: int, r: int, d: Direction, min: int) -> int {
    let mag = isqrt_spec((patrol_taper(x, l, r, d) * 1000) as nat) + min;
    if d is Right { 2 * mag } else { -2 * mag }
}

/// One patrol step for an enemy standing at `x`: turn around at a boundary,
/// then set the horizontal speed from the ease-in/ease-out taper.
pub fn swap_direction(enemy: &mut Enemy, x: i64)
    requires
        old(enemy).wf(),
        crate::in_world(x),
    ensures
        final(enemy).wf(),
        final(enemy).direction == flipped_direction(
            old(enemy).direction, x as int, old(enemy).left_boundary as int,
            old(enemy).right_boundary as int),
        x <= old(enemy).left_boundary ==> final(enemy).direction is Right,
        x >= old(enemy).right_boundary ==> final(enemy).direction is Left,
        old(enemy).left_boundary < x < old(enemy).right_boundary
            ==> final(enemy).direction == old(enemy).direction,
        final(enemy).speed.x == patrol_speed_x(
            x as int, old(enemy).left_boundary as int, old(enemy).right_boundary as int,
            final(enemy).direction, old(enemy).min_speed as int),
        final(enemy).min_speed as int
            <= abs_spec(final(enemy).speed.x as int) / 2
            <= 708 + final(enemy).min_speed,
        final(enemy).speed.y == old(enemy).speed.y,
        final(enemy).min_speed == old(enemy).min_speed,
        final(enemy).left_boundary == old(enemy).left_boundary,
        final(enemy).right_boundary == old(enemy).right_boundary,
{
    let l = enemy.left_boundary;
    let r = enemy.right_boundary;

    if x <= l {
        enemy.direction = Direction::Right;
    } else if x >= r {
        enemy.direction = Direction::Left;
    }

    let total = r - l;
    let percent = div_trunc_i64((x - l) * 1000, total);
    let rel = match enemy.direction {
        Direction::Right => percent,
        Direction::Left => 1000 - percent,
    };
    let t = if rel < 500 { rel } else { 1000 - rel };
    let t = if t < 0 { 0 } else { t };

    let root = isqrt((t * 1000) as u64);
    proof {
        assert(root * root <= 500_000 ==> root <= 707) by (nonlinear_arith);
    }
    let mag = root as i64 + enemy.min_speed;
    enemy.speed.x = match enemy.direction {
        Direction::Right => 2 * mag,
        Direction::Left => -(2 * mag),
    };
}

/// The magnitude of `x`.
pub open spec fn abs_spec(x: int) -> int {
    if x >= 0 { x } else { -x }
}

/// The enemy's intended translation for the physics adapter: its patrol
/// speed with the base gravity pull added to the vertical part.
pub fn move_enemy(enemy: &Enemy) -> (translation: Vec2i)
    requires
        enemy.wf(),
    ensures
        translation.x == enemy.speed.x,
        translation.y == enemy.speed.y + crate::GRAVITY_Y,
{
    Vec2i::new(enemy.speed.x, enemy.speed.y + crate::GRAVITY_Y)
}

/// Whether the enemy's sprite is mirrored: it is exactly when the enemy
/// walks left.
pub fn enemy_sprite_flipped(enemy: &Enemy) -> (flip_x: bool)
    ensures
        flip_x == (enemy.direction is Left),
{
    match enemy.direction {
        Direction::Left => true,
        Direction::Right => false,
    }
}

/// The enemy's x-coordinate forced back into its patrol range, widened by
/// the clamping slack: after this, `x` lies in
/// `[left_boundary - epsilon, right_boundary + epsilon]`.
pub fn clamp_to_patrol(enemy: &Enemy, x: i64, epsilon: i64) -> (r: i64)
    requires
        enemy.wf(),
        0 <= epsilon <= crate::MILLI * crate::MILLI,
        -i64::MAX <= x,
    ensures
        enemy.left_boundary - epsilon <= r <= enemy.right_boundary + epsilon,
        enemy.left_boundary - epsilon <= x <= enemy.right_boundary + epsilon ==> r == x,
        x < enemy.left_boundary - epsilon ==> r == enemy.left_boundary - epsilon,
        x > enemy.right_boundary + epsilon ==> r == enemy.right_boundary + epsilon,
{
    crate::math::clamp_i64(x, enemy.left_boundary - epsilon, enemy.right_boundary + epsilon)
}

} // verus!
