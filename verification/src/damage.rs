//! Contact damage: each tick, every enemy that touched the player costs the
//! player that enemy's damage value, once per enemy. The physics adapter
//! reports collisions only from the moving side, so both the player's and
//! each enemy's collision list are consulted.

use vstd::prelude::*;

use crate::health::Damage;
use crate::player::Player;

verus! {

/// One enemy's contribution to the tick's damage pass: its identity, its
/// damage value, and the collision list its kinematic controller reported.
#[derive(Clone, Debug, PartialEq, Eq)]
#[verifier::ext_equal]
pub struct EnemyContact {
    pub entity: u64,
    /// Hit points one touch costs the player.
    pub damage: Damage,
    /// Entities this enemy's controller hit during the tick's step.
    pub collisions: Vec<u64>,
}

/// Whether this enemy touched the player during the step, seen from either
/// side's collision list.
pub open spec fn hits_player(e: EnemyContact, player_entity: u64, player_collisions: Seq<u64>)
    -> bool {
    player_collisions.contains(e.entity) || e.collisions@.contains(player_entity)
}

/// The damage the tick deals: the sum of the damage values of the enemies
/// that touched the player, one contribution per enemy.
pub open spec fn total_damage(
    enemies: Seq<EnemyContact>,
    player_entity: u64,
    player_collisions: Seq<u64>,
) -> int
    decreases enemies.len(),
{
    if enemies.len() == 0 {
        0
    } else {
        total_damage(enemies.drop_last(), player_entity, player_collisions)
            + if hits_player(enemies.last(), player_entity, player_collisions) {
                enemies.last().damage.0 as int
            } else {
                0int
            }
    }
}

/// One damage pass: the player loses the damage of every enemy that touched
/// them this tick (never dropping below zero hit points), and nothing else
/// about the player changes. Health never rises.
pub fn enemy_damage_player(
    player: &mut Player,
    player_collisions: &Vec<u64>,
    enemies: &Vec<EnemyContact>,
)
    requires
        old(player).wf(),
        forall|i: int| 0 <= i < enemies@.len() ==> (#[trigger] enemies@[i].damage).0 >= 0,
        forall|i: int, j: int| 0 <= i < j < enemies@.len()
            ==> enemies@[i].entity != enemies@[j].entity,
    ensures
        final(player).wf(),
        final(player).health.total == old(player).health.total,
        final(player).health.remaining <= old(player).health.remaining,
        final(player).health.remaining == if old(player).health.remaining
            >= total_damage(enemies@, old(player).entity, player_collisions@) {
            old(player).health.remaining
                - total_damage(enemies@, old(player).entity, player_collisions@)
        } else {
            0int
        },
        final(player).position == old(player).position,
        final(player).translation == old(player).translation,
        final(player).flip_x == old(player).flip_x,
        final(player).animating == old(player).animating,
        final(player).coins == old(player).coins,
        final(player).character == old(player).character,
        final(player).jump == old(player).jump,
        final(player).entity == old(player).entity,
{
    let player_entity = player.entity;
    let ghost initial = *player;
    let mut i: usize = 0;
    proof {
        assert(enemies@.subrange(0, 0) =~= Seq::<EnemyContact>::empty());
    }
    while i < enemies.len()
        invariant
            i <= enemies.len(),
            initial.wf(),
            player.wf(),
            player_entity == initial.entity,
            player.health.total == initial.health.total,
            player.health.remaining == if initial.health.remaining
                >= total_damage(enemies@.subrange(0, i as int), initial.entity, player_collisions@) {
                initial.health.remaining
                    - total_damage(enemies@.subrange(0, i as int), initial.entity, player_collisions@)
            } else {
                0int
            },
            forall|k: int| 0 <= k < enemies@.len() ==> (#[trigger] enemies@[k].damage).0 >= 0,
            *player == (Player { health: player.health, ..initial }),
        decreases enemies.len() - i,
    {
        proof {
            assert(enemies@.subrange(0, i + 1).drop_last() =~= enemies@.subrange(0, i as int));
            assert(enemies@.subrange(0, i + 1).last() == enemies@[i as int]);
            lemma_total_damage_nonneg(
                enemies@.subrange(0, i as int), initial.entity, player_collisions@);
        }
        let touched_from_player = crate::collect_coin::contains_entity(
            player_collisions, enemies[i].entity);
        let touched_from_enemy = crate::collect_coin::contains_entity(
            &enemies[i].collisions, player_entity);
        if touched_from_player || touched_from_enemy {
            player.health.take_damage(enemies[i].damage.0);
        }
        i = i + 1;
    }
    proof {
        assert(enemies@.subrange(0, enemies@.len() as int) =~= enemies@);
        lemma_total_damage_nonneg(enemies@, initial.entity, player_collisions@);
    }
}

/// A tick's total damage is never negative.
pub proof fn lemma_total_damage_nonneg(
    enemies: Seq<EnemyContact>,
    player_entity: u64,
    player_collisions: Seq<u64>,
)
    requires
        forall|i: int| 0 <= i < enemies.len() ==> (#[trigger] enemies[i].damage).0 >= 0,
    ensures
        total_damage(enemies, player_entity, player_collisions) >= 0,
    decreases enemies.len(),
{
    if enemies.len() > 0 {
        assert(enemies.last() == enemies[enemies.len() - 1]);
        assert(forall|i: int| 0 <= i < enemies.drop_last().len()
            ==> (#[trigger] enemies.drop_last()[i].damage).0 >= 0);
        lemma_total_damage_nonneg(enemies.drop_last(), player_entity, player_collisions);
    }
}

} // verus!
