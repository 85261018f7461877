//! Per-tick control of the player character: walking, facing, starting a
//! jump, and the pull force applied while grappling.

use vstd::prelude::*;

use crate::jump::JumpComponent;
use crate::math::Vec2i;
use crate::player::Player;

verus! {

/// The logical actions a player can hold down; an external binding table
/// maps physical keys onto them.
#[derive(Clone, Copy, Debug, PartialEq, Eq, Hash, Structural)]
pub enum Action {
    Left,
    Right,
    Jump,
    Grapple,
}

/// The set of actions held down during one tick.
#[derive(Clone, Copy, Debug, Default, PartialEq, Eq, Structural)]
pub struct ActionsPressed {
    pub left: bool,
    pub right: bool,
    pub jump: bool,
    pub grapple: bool,
}

impl ActionsPressed {
    /// No action at all is held down.
    #[verifier::when_used_as_spec(none_pressed_spec)]
    pub fn none_pressed(self) -> (r: bool)
        ensures
            r == self.none_pressed_spec(),
    {
        !self.left && !self.right && !self.jump && !self.grapple
    }

    /// No action at all is held down.
    pub open spec fn none_pressed_spec(self) -> bool {
        !self.left && !self.right && !self.jump && !self.grapple
    }
}

/// The default binding of physical keys to logical actions: arrows and WASD
/// to walk and jump, Space to jump, E and Slash to grapple. An external
/// input manager turns this table into its own binding map.
pub fn get_input_map() -> (bindings: Vec<(Action, &'static str)>)
    ensures
        bindings@.len() == 9,
        bindings@[0].0 == Action::Left && bindings@[0].1@ == "ArrowLeft"@,
        bindings@[1].0 == Action::Left && bindings@[1].1@ == "KeyA"@,
        bindings@[2].0 == Action::Right && bindings@[2].1@ == "ArrowRight"@,
        bindings@[3].0 == Action::Right && bindings@[3].1@ == "KeyD"@,
        bindings@[4].0 == Action::Jump && bindings@[4].1@ == "ArrowUp"@,
        bindings@[5].0 == Action::Jump && bindings@[5].1@ == "KeyW"@,
        bindings@[6].0 == Action::Jump && bindings@[6].1@ == "Space"@,
        bindings@[7].0 == Action::Grapple && bindings@[7].1@ == "KeyE"@,
        bindings@[8].0 == Action::Grapple && bindings@[8].1@ == "Slash"@,
{
    let mut bindings: Vec<(Action, &'static str)> = Vec::new();
    bindings.push((Action::Left, "ArrowLeft"));
    bindings.push((Action::Left, "KeyA"));
    bindings.push((Action::Right, "ArrowRight"));
    bindings.push((Action::Right, "KeyD"));
    bindings.push((Action::Jump, "ArrowUp"));
    bindings.push((Action::Jump, "KeyW"));
    bindings.push((Action::Jump, "Space"));
    bindings.push((Action::Grapple, "KeyE"));
    bindings.push((Action::Grapple, "Slash"));
    bindings
}

/// Movement configuration of a steerable character.
#[derive(Clone, Copy, Debug, PartialEq, Eq, Structural)]
pub struct Character {
    /// Horizontal walking speed, in milliunits per tick.
    pub movement_speed: i64,
}

impl Character {
    pub open spec fn wf(self) -> bool {
        0 <= self.movement_speed <= crate::COORD_LIMIT
    }
}

/// Whether this tick's input starts a jump: Jump is held, the character
/// stands on the ground, and no jump is already in flight.
pub open spec fn starts_jump(p: Player, actions: ActionsPressed, grounded: bool) -> bool {
    actions.jump && grounded && p.jump is None
}

/// One tick of character control. The intended translation starts out as the
/// base gravity pull; holding Left or Right overwrites its horizontal part
/// (Right wins when both are held) and turns the sprite and its animation
/// accordingly; Jump while grounded and not already jumping starts a fresh
/// jump; with nothing held the walk animation stops.
///
/// Holding Jump while airborne starts nothing, and the grapple action is
/// handled by the grapple state machine, not here.
pub fn move_character(player: &mut Player, actions: &ActionsPressed, grounded: bool)
    requires
        old(player).wf(),
    ensures
        final(player).wf(),
        final(player).translation.y == crate::GRAVITY_Y,
        final(player).translation.x == if actions.right {
            old(player).character.movement_speed as int
        } else if actions.left {
            -old(player).character.movement_speed as int
        } else {
            0int
        },
        final(player).flip_x == if actions.right {
            false
        } else if actions.left {
            true
        } else {
            old(player).flip_x
        },
        final(player).animating == if actions.left || actions.right {
            true
        } else if actions.none_pressed() {
            false
        } else {
            old(player).animating
        },
        final(player).jump == if starts_jump(*old(player), *actions, grounded) {
            Some(JumpComponent::fresh_spec(crate::JUMP_HEIGHT as int, crate::JUMP_TIME_TO_PEAK as int))
        } else {
            old(player).jump
        },
        !grounded ==> final(player).jump == old(player).jump,
        final(player).position == old(player).position,
        final(player).health == old(player).health,
        final(player).coins == old(player).coins,
        final(player).character == old(player).character,
        final(player).entity == old(player).entity,
{
    player.translation = Vec2i::new(0, crate::GRAVITY_Y);

    if actions.none_pressed() {
        player.animating = false;
    }
    if actions.left {
        player.translation.x = -player.character.movement_speed;
        player.flip_x = true;
        player.animating = true;
    }
    if actions.right {
        player.translation.x = player.character.movement_speed;
        player.flip_x = false;
        player.animating = true;
    }
    if actions.jump && grounded && player.jump.is_none() {
        player.jump = Some(JumpComponent::new(crate::JUMP_HEIGHT, crate::JUMP_TIME_TO_PEAK));
    }
}

/// While grappling, the pull wholly replaces the tick's intended
/// translation: `direction` (the unit vector toward the target, in
/// milliunits) scaled by the pull strength. Gravity and walking are
/// suppressed.
pub fn add_grapple_force(player: &mut Player, direction: Vec2i)
    requires
        old(player).wf(),
        -2 * crate::MILLI <= direction.x <= 2 * crate::MILLI,
        -2 * crate::MILLI <= direction.y <= 2 * crate::MILLI,
    ensures
        final(player).wf(),
        final(player).translation.x == direction.x * crate::PULL_STRENGTH,
        final(player).translation.y == direction.y * crate::PULL_STRENGTH,
        *final(player) == (Player { translation: final(player).translation, ..*old(player) }),
{
    player.translation = Vec2i::new(direction.x * crate::PULL_STRENGTH, direction.y * crate::PULL_STRENGTH);
}

} // verus!
