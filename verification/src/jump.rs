//! The ballistic jump: from a prescribed apex height and time-to-peak, a
//! linear vertical-velocity profile `vy(e) = initial_velocity + gravity * e`
//! over elapsed ticks `e`. The profile is symmetric around the peak: the
//! velocity `delta` ticks before the peak is the negation of the velocity
//! `delta` ticks after it.

use vstd::prelude::*;

use crate::math::Vec2i;

verus! {

/// Largest per-tick decrement of the jump velocity the constructor can
/// produce, used to bound the arithmetic below.
pub const JUMP_GRAVITY_LIMIT: i64 = 200_000_000_000;

/// Longest time-to-peak the constructor accepts, in ticks.
pub const JUMP_PEAK_LIMIT: i64 = 1000;

/// State of a jump in flight, present on the player exactly while a jump is
/// ascending or descending.
#[derive(Clone, Copy, Debug, PartialEq, Eq, Structural)]
pub struct JumpComponent {
    /// Velocity lost per tick of flight (negative), in milliunits.
    pub gravity: i64,
    /// Vertical velocity at lift-off, in milliunits.
    pub initial_velocity: i64,
    /// Ticks from lift-off to the apex.
    pub time_to_peak: i64,
    /// Ticks since lift-off, capped at `2 * time_to_peak`.
    pub elapsed: i64,
}

impl JumpComponent {
    /// The profile is well formed when lift-off velocity and gravity cancel
    /// exactly at the peak, so the descent mirrors the ascent.
    pub open spec fn wf(self) -> bool {
        &&& 0 < self.time_to_peak <= JUMP_PEAK_LIMIT
        &&& -JUMP_GRAVITY_LIMIT <= self.gravity <= 0
        &&& self.initial_velocity == -self.gravity * self.time_to_peak
        &&& 0 <= self.elapsed <= 2 * self.time_to_peak
    }

    /// Vertical velocity after `elapsed` ticks of flight.
    pub open spec fn velocity_spec(self, elapsed: int) -> int {
        self.initial_velocity + self.gravity * elapsed
    }

    /// The jump `new(height, time_to_peak)` hands out.
    pub open spec fn fresh_spec(height: int, time_to_peak: int) -> JumpComponent {
        let q = (2 * height * crate::TICKS_PER_SECOND) / (time_to_peak * time_to_peak);
        JumpComponent {
            gravity: (-q) as i64,
            initial_velocity: (q * time_to_peak) as i64,
            time_to_peak: time_to_peak as i64,
            elapsed: 0,
        }
    }

    /// A new jump whose apex is `height` milliunits above lift-off, reached
    /// after `time_to_peak` ticks. The per-tick gravity is the fixed-point
    /// quotient `-(2 * height * TICKS_PER_SECOND) / time_to_peak^2`, and the
    /// lift-off velocity is chosen to cancel it exactly at the peak.
    pub fn new(height: i64, time_to_peak: i64) -> (jc: JumpComponent)
        requires
            0 <= height <= crate::COORD_LIMIT,
            0 < time_to_peak <= JUMP_PEAK_LIMIT,
        ensures
            jc.wf(),
            jc == Self::fresh_spec(height as int, time_to_peak as int),
            jc.time_to_peak == time_to_peak,
            jc.elapsed == 0,
            jc.gravity == -((2 * height * crate::TICKS_PER_SECOND) / (time_to_peak * time_to_peak)),
    {
        proof {
            assert(0 < time_to_peak * time_to_peak <= JUMP_PEAK_LIMIT * JUMP_PEAK_LIMIT)
                by (nonlinear_arith)
                requires 0 < time_to_peak <= JUMP_PEAK_LIMIT;
        }
        let q: i64 = (2 * height * crate::TICKS_PER_SECOND) / (time_to_peak * time_to_peak);
        proof {
            assert(0 <= q <= 2 * crate::COORD_LIMIT * crate::TICKS_PER_SECOND) by (nonlinear_arith)
                requires
                    q == (2 * height * crate::TICKS_PER_SECOND) as int / (time_to_peak * time_to_peak) as int,
                    0 <= height <= crate::COORD_LIMIT,
                    0 < time_to_peak;
            assert(q * time_to_peak <= JUMP_GRAVITY_LIMIT * JUMP_PEAK_LIMIT) by (nonlinear_arith)
                requires 0 <= q <= JUMP_GRAVITY_LIMIT, 0 < time_to_peak <= JUMP_PEAK_LIMIT;
        }
        JumpComponent {
            gravity: -q,
            initial_velocity: q * time_to_peak,
            time_to_peak,
            elapsed: 0,
        }
    }

    /// The jump one tick later: elapsed time advances by one, saturating at
    /// the end of the profile.
    pub open spec fn ticked(self) -> JumpComponent {
        JumpComponent {
            elapsed: if self.elapsed + 1 <= 2 * self.time_to_peak {
                (self.elapsed + 1) as i64
            } else {
                self.elapsed
            },
            ..self
        }
    }

    /// Vertical velocity after `elapsed` ticks of flight.
    pub fn velocity_at(&self, elapsed: i64) -> (vy: i64)
        requires
            self.wf(),
            0 <= elapsed <= 2 * self.time_to_peak,
        ensures
            vy == self.velocity_spec(elapsed as int),
    {
        proof {
            lemma_velocity_in_range(*self, elapsed as int);
            assert(-JUMP_GRAVITY_LIMIT * (2 * JUMP_PEAK_LIMIT) <= self.gravity * elapsed <= 0)
                by (nonlinear_arith)
                requires
                    -JUMP_GRAVITY_LIMIT <= self.gravity <= 0,
                    0 <= elapsed <= 2 * JUMP_PEAK_LIMIT;
        }
        self.initial_velocity + self.gravity * elapsed
    }
}

/// Over the flight the velocity stays within the lift-off magnitude.
pub proof fn lemma_velocity_in_range(jc: JumpComponent, elapsed: int)
    requires
        jc.wf(),
        0 <= elapsed <= 2 * jc.time_to_peak,
    ensures
        -jc.initial_velocity <= jc.velocity_spec(elapsed) <= jc.initial_velocity,
{
    assert(-jc.initial_velocity <= jc.initial_velocity + jc.gravity * elapsed <= jc.initial_velocity)
        by (nonlinear_arith)
        requires
            jc.initial_velocity == -jc.gravity * jc.time_to_peak,
            jc.gravity <= 0,
            0 <= elapsed <= 2 * jc.time_to_peak;
}

/// The jump profile is symmetric around its peak: `delta` ticks before the
/// peak the vertical velocity is exactly the negation of the velocity
/// `delta` ticks after the peak.
pub proof fn lemma_jump_symmetry(jc: JumpComponent, delta: int)
    requires
        jc.wf(),
        0 <= delta <= jc.time_to_peak,
    ensures
        jc.velocity_spec(jc.time_to_peak - delta) == -jc.velocity_spec(jc.time_to_peak + delta),
{
    assert(jc.gravity * (jc.time_to_peak - delta) == jc.gravity * jc.time_to_peak - jc.gravity * delta)
        by (nonlinear_arith);
    assert(jc.gravity * (jc.time_to_peak + delta) == jc.gravity * jc.time_to_peak + jc.gravity * delta)
        by (nonlinear_arith);
    assert((-jc.gravity) * jc.time_to_peak == -(jc.gravity * jc.time_to_peak)) by (nonlinear_arith);
}

/// Advances a live jump by one tick and writes the profile's vertical
/// velocity into the intended translation, leaving the horizontal component
/// untouched. The elapsed time saturates at the end of the profile, where
/// the velocity has settled at the negated lift-off velocity.
pub fn jump(jump_component: &mut JumpComponent, translation: &mut Vec2i)
    requires
        old(jump_component).wf(),
    ensures
        final(jump_component).wf(),
        *final(jump_component) == old(jump_component).ticked(),
        final(jump_component).elapsed == if old(jump_component).elapsed + 1 <= 2 * old(jump_component).time_to_peak {
            old(jump_component).elapsed + 1
        } else {
            old(jump_component).elapsed as int
        },
        final(jump_component).gravity == old(jump_component).gravity,
        final(jump_component).initial_velocity == old(jump_component).initial_velocity,
        final(jump_component).time_to_peak == old(jump_component).time_to_peak,
        final(translation).x == old(translation).x,
        final(translation).y == final(jump_component).velocity_spec(final(jump_component).elapsed as int),
{
    if jump_component.elapsed < 2 * jump_component.time_to_peak {
        jump_component.elapsed = jump_component.elapsed + 1;
    }
    translation.y = jump_component.velocity_at(jump_component.elapsed);
}

/// Removes the jump state as soon as the character stands on the ground.
/// This runs before the tick's movement, so a landing tick really ends the
/// jump and the next Jump press can start a fresh one.
pub fn stop_jump(jump_component: &mut Option<JumpComponent>, grounded: bool)
    ensures
        grounded ==> *final(jump_component) is None,
        !grounded ==> *final(jump_component) == *old(jump_component),
{
    if grounded {
        *jump_component = None;
    }
}

} // verus!
