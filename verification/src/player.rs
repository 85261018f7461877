//! The player entity: position, per-tick intended translation, facing,
//! animation flag, health, coin count, movement configuration and the
//! optional jump in flight.

use vstd::prelude::*;

use crate::character::Character;
use crate::collect_coin::CoinCollector;
use crate::health::Health;
use crate::jump::JumpComponent;
use crate::math::Vec2i;

verus! {

/// The one player of an in-game session.
#[derive(Clone, Copy, Debug, PartialEq, Eq, Structural)]
pub struct Player {
    /// Identity of the player's entity.
    pub entity: u64,
    /// Position in milliunits.
    pub position: Vec2i,
    /// Intended translation handed to the physics adapter this tick,
    /// in milliunits.
    pub translation: Vec2i,
    /// Whether the sprite faces left.
    pub flip_x: bool,
    /// Whether the walk animation runs.
    pub animating: bool,
    pub health: Health,
    pub coins: CoinCollector,
    pub character: Character,
    /// The jump in flight, present exactly while ascending or descending.
    pub jump: Option<JumpComponent>,
}

impl Player {
    pub open spec fn wf(self) -> bool {
        &&& self.health.wf()
        &&& self.character.wf()
        &&& self.jump matches Some(jc) ==> jc.wf()
    }

    /// A freshly spawned player: standing at `position`, full health, no
    /// coins, facing right, not animating, not jumping, about to fall.
    pub fn spawn(entity: u64, position: Vec2i) -> (p: Player)
        ensures
            p.wf(),
            p == Player::spawn_spec(entity, position),
    {
        Player {
            entity,
            position,
            translation: Vec2i::new(0, crate::GRAVITY_Y),
            flip_x: false,
            animating: false,
            health: Health::full(crate::INITIAL_HEALTH),
            coins: CoinCollector { num_coins: 0 },
            character: Character { movement_speed: crate::MOVEMENT_SPEED },
            jump: None,
        }
    }

    /// The player `spawn` hands out.
    pub open spec fn spawn_spec(entity: u64, position: Vec2i) -> Player {
        Player {
            entity,
            position,
            translation: Vec2i { x: 0, y: crate::GRAVITY_Y },
            flip_x: false,
            animating: false,
            health: Health { remaining: crate::INITIAL_HEALTH, total: crate::INITIAL_HEALTH },
            coins: CoinCollector { num_coins: 0 },
            character: Character { movement_speed: crate::MOVEMENT_SPEED },
            jump: None,
        }
    }
}

/// The jump the player starts on a successful Jump press: the configured
/// apex height reached after the configured time to peak.
pub fn jump_component() -> (jc: JumpComponent)
    ensures
        jc.wf(),
        jc == JumpComponent::fresh_spec(crate::JUMP_HEIGHT as int, crate::JUMP_TIME_TO_PEAK as int),
{
    JumpComponent::new(crate::JUMP_HEIGHT, crate::JUMP_TIME_TO_PEAK)
}

} // verus!
