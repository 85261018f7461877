//! The camera follows the player with a softened, capped motion: each frame
//! it closes a hundredth of the gap on each axis, ignores gaps too small to
//! matter, and never moves faster than the per-axis cap.

use vstd::prelude::*;

use crate::math::{div_trunc, div_trunc_i64, Vec2i};

verus! {

/// The camera's per-frame horizontal speed cap, in milliunits.
pub const CAMERA_MAX_SPEED_X: i64 = 3000;

/// The camera's per-frame vertical speed cap, in milliunits.
pub const CAMERA_MAX_SPEED_Y: i64 = 1000;

/// The step the camera coordinate `b` takes toward the target `a`: a
/// hundredth of the gap, zero when that is under a quarter unit.
pub open spec fn follow_delta(a: int, b: int) -> int {
    let delta = div_trunc(b - a, 100);
    if -250 < delta < 250 {
        0
    } else {
        delta
    }
}

/// One axis of camera motion: `b` moves by its follow step toward `a`,
/// capped at `max_speed`.
pub fn follow(a: i64, b: &mut i64, max_speed: i64)
    requires
        crate::in_world(a),
        crate::in_world(*old(b)),
        0 <= max_speed <= crate::COORD_LIMIT,
    ensures
        *final(b) == *old(b) - if follow_delta(a as int, *old(b) as int) <= max_speed {
            follow_delta(a as int, *old(b) as int)
        } else {
            max_speed as int
        },
{
    let delta = div_trunc_i64(*b - a, 100);
    let delta = if -250 < delta && delta < 250 { 0 } else { delta };
    let step = if delta <= max_speed { delta } else { max_speed };
    *b = *b - step;
}

/// One frame of camera work: follow the player on both axes, with the
/// horizontal cap looser than the vertical one.
pub fn keep_player_in_view(camera: &mut Vec2i, player_position: Vec2i)
    requires
        crate::in_world(old(camera).x),
        crate::in_world(old(camera).y),
        crate::in_world(player_position.x),
        crate::in_world(player_position.y),
    ensures
        final(camera).x == old(camera).x
            - if follow_delta(player_position.x as int, old(camera).x as int)
                <= CAMERA_MAX_SPEED_X {
                follow_delta(player_position.x as int, old(camera).x as int)
            } else {
                CAMERA_MAX_SPEED_X as int
            },
        final(camera).y == old(camera).y
            - if follow_delta(player_position.y as int, old(camera).y as int)
                <= CAMERA_MAX_SPEED_Y {
                follow_delta(player_position.y as int, old(camera).y as int)
            } else {
                CAMERA_MAX_SPEED_Y as int
            },
{
    follow(player_position.x, &mut camera.x, CAMERA_MAX_SPEED_X);
    follow(player_position.y, &mut camera.y, CAMERA_MAX_SPEED_Y);
}

} // verus!
