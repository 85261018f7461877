//! The world: the one place that owns every entity of a session — player,
//! enemies, coins, blocks, background layers, the grappling hook, the camera
//! and the two state machines. Entering the game spawns the level's
//! entities deterministically from the loaded level; leaving it despawns
//! them all and keeps the level for the next session.

use vstd::prelude::*;

use crate::background::{all_sections, Background};
use crate::collect_coin::Coin;
use crate::enemy::{Direction, Enemy};
use crate::grapple::Grapple;
use crate::health::Damage;
use crate::level::{Block, BlockData, Level, LevelState};
use crate::math::Vec2i;
use crate::player::Player;
use crate::state::GameState;

verus! {

/// The player's entity identity.
pub const PLAYER_ENTITY: u64 = 1;

/// The identity of the first spawned level entity; the rest follow in spawn
/// order, so respawning the same level hands out the same identities.
pub const LEVEL_ENTITY_BASE: u64 = 2;

/// Identity of the first block-row entity: the background layers come first.
pub const BLOCK_ENTITY_BASE: u64 = 11;

/// Horizontal speed an enemy starts with, in milliunits per tick.
pub const ENEMY_START_SPEED_X: i64 = 2000;

/// Left end of every enemy's patrol, in milliunits.
pub const ENEMY_LEFT_BOUNDARY: i64 = 0;

/// Right end of every enemy's patrol (twelve tiles), in milliunits.
pub const ENEMY_RIGHT_BOUNDARY: i64 = 768_000;

/// A spawned background layer.
#[derive(Clone, Copy, Debug, PartialEq, Eq, Structural)]
pub struct BackgroundLayer {
    pub entity: u64,
    pub background: Background,
    /// Position in milliunits.
    pub position: Vec2i,
}

/// A spawned solid block.
#[derive(Clone, Copy, Debug, PartialEq, Eq, Structural)]
pub struct BlockEntity {
    pub entity: u64,
    /// Position in milliunits.
    pub position: Vec2i,
}

/// A spawned enemy: its identity, where it stands, the translation it hands
/// the physics adapter, its patrol state and the damage it deals on touch.
#[derive(Clone, Copy, Debug, PartialEq, Eq, Structural)]
pub struct EnemyEntity {
    pub entity: u64,
    /// Position in milliunits.
    pub position: Vec2i,
    /// Intended translation for this tick, in milliunits.
    pub translation: Vec2i,
    pub patrol: Enemy,
    /// Hit points one touch costs the player.
    pub damage: Damage,
}

/// The background layers a fresh session draws, one per section of the
/// biome, each a fifth of its height up and at the first free identities.
pub open spec fn spawned_backgrounds() -> Seq<BackgroundLayer> {
    Seq::new(all_sections().len(), |i: int| BackgroundLayer {
        entity: (LEVEL_ENTITY_BASE + i) as u64,
        background: Background { section: all_sections()[i] },
        position: Vec2i { x: 0, y: 108_000 },
    })
}

/// The enemy standing at `position` under identity `entity` when a session
/// starts: walking right between the fixed patrol boundaries, dealing a
/// one-hit kill.
pub open spec fn fresh_enemy(entity: u64, position: Vec2i) -> EnemyEntity {
    EnemyEntity {
        entity,
        position,
        translation: Vec2i { x: ENEMY_START_SPEED_X, y: 0 },
        patrol: Enemy {
            direction: Direction::Right,
            speed: Vec2i { x: ENEMY_START_SPEED_X, y: 0 },
            min_speed: crate::ENEMY_MIN_SPEED,
            left_boundary: ENEMY_LEFT_BOUNDARY,
            right_boundary: ENEMY_RIGHT_BOUNDARY,
        },
        damage: Damage(crate::INITIAL_HEALTH),
    }
}

/// The solid blocks a block list spawns: one entity per Dirt entry, at the
/// identity given by the entry's row.
pub open spec fn spawned_blocks(blocks: Seq<Block>, base: int) -> Seq<BlockEntity>
    decreases blocks.len(),
{
    if blocks.len() == 0 {
        Seq::empty()
    } else if blocks.last().data is Dirt {
        spawned_blocks(blocks.drop_last(), base).push(BlockEntity {
            entity: (base + blocks.len() - 1) as u64,
            position: blocks.last().position,
        })
    } else {
        spawned_blocks(blocks.drop_last(), base)
    }
}

/// The enemies a block list spawns: one per Enemy entry.
pub open spec fn spawned_enemies(blocks: Seq<Block>, base: int) -> Seq<EnemyEntity>
    decreases blocks.len(),
{
    if blocks.len() == 0 {
        Seq::empty()
    } else if blocks.last().data is Enemy {
        spawned_enemies(blocks.drop_last(), base).push(
            fresh_enemy((base + blocks.len() - 1) as u64, blocks.last().position))
    } else {
        spawned_enemies(blocks.drop_last(), base)
    }
}

/// The coins a block list spawns: one per Coin entry.
pub open spec fn spawned_coins(blocks: Seq<Block>, base: int) -> Seq<Coin>
    decreases blocks.len(),
{
    if blocks.len() == 0 {
        Seq::empty()
    } else if blocks.last().data is Coin {
        spawned_coins(blocks.drop_last(), base).push(Coin {
            entity: (base + blocks.len() - 1) as u64,
            position: blocks.last().position,
        })
    } else {
        spawned_coins(blocks.drop_last(), base)
    }
}

/// The world: every entity of the running game, the grappling hook, the
/// camera and the two state machines.
#[derive(Clone, Debug, PartialEq, Eq)]
pub struct World {
    pub game_state: GameState,
    pub level_state: LevelState,
    /// The loaded level; retained across sessions.
    pub level: Option<Level>,
    /// The player; present while a session runs.
    pub player: Option<Player>,
    pub grapple: Grapple,
    /// Camera position in milliunits.
    pub camera: Vec2i,
    pub backgrounds: Vec<BackgroundLayer>,
    pub blocks: Vec<BlockEntity>,
    pub enemies: Vec<EnemyEntity>,
    pub coins: Vec<Coin>,
    /// The next identity for a grapple marker entity.
    pub next_marker: u64,
}

impl World {
    /// Everything the tick functions lean on: the player, the hook, the
    /// level and each enemy are well formed, positions lie in the world,
    /// enemy identities are distinct, and the coin count has headroom.
    pub open spec fn wf(self) -> bool {
        &&& self.player matches Some(p) ==> p.wf()
            && crate::in_world(p.position.x) && crate::in_world(p.position.y)
        &&& self.grapple.wf()
        &&& self.grapple.target matches Some(t)
            ==> crate::in_world(t.point.x) && crate::in_world(t.point.y)
        &&& self.level matches Some(l) ==> l.wf()
        &&& forall|i: int| 0 <= i < self.enemies@.len()
            ==> (#[trigger] self.enemies@[i]).patrol.wf()
                && self.enemies@[i].damage.0 >= 0
                && crate::in_world(self.enemies@[i].position.x)
                && crate::in_world(self.enemies@[i].position.y)
        &&& forall|i: int, j: int| 0 <= i < j < self.enemies@.len()
            ==> self.enemies@[i].entity != self.enemies@[j].entity
        &&& (self.player matches Some(p)
            ==> p.coins.num_coins + self.coins@.len() <= u64::MAX)
        &&& crate::in_world(self.camera.x)
        &&& crate::in_world(self.camera.y)
    }

    /// A fresh world: on the start screen, assets still loading, nothing
    /// spawned.
    pub fn new() -> (w: World)
        ensures
            w.wf(),
            w.game_state is StartScreen,
            w.level_state is LoadingAssets,
            w.level is None,
            w.player is None,
            w.grapple.state is Idle,
            w.grapple.target is None,
            w.backgrounds@ =~= Seq::<BackgroundLayer>::empty(),
            w.blocks@ =~= Seq::<BlockEntity>::empty(),
            w.enemies@ =~= Seq::<EnemyEntity>::empty(),
            w.coins@ =~= Seq::<Coin>::empty(),
    {
        World {
            game_state: GameState::StartScreen,
            level_state: LevelState::LoadingAssets,
            level: None,
            player: None,
            grapple: Grapple::new(),
            camera: Vec2i::new(0, 0),
            backgrounds: Vec::new(),
            blocks: Vec::new(),
            enemies: Vec::new(),
            coins: Vec::new(),
            next_marker: 1_000_000,
        }
    }

    /// Spawns the level's entities: the biome's background layers first,
    /// then one entity per block entry, identities handed out in spawn
    /// order from a fixed base — so the same level always spawns the same
    /// entities.
    pub fn spawn_blocks(&mut self)
        requires
            old(self).wf(),
            old(self).level matches Some(l) && l.blocks@.len() <= 100_000,
            old(self).level_state is SpawningBlocks,
            old(self).player matches Some(p)
                ==> p.coins.num_coins + old(self).level.unwrap().blocks@.len() <= u64::MAX,
        ensures
            final(self).wf(),
            final(self).level_state is Loaded,
            final(self).backgrounds@ == spawned_backgrounds(),
            final(self).blocks@ == spawned_blocks(
                old(self).level.unwrap().blocks@, BLOCK_ENTITY_BASE as int),
            final(self).enemies@ == spawned_enemies(
                old(self).level.unwrap().blocks@, BLOCK_ENTITY_BASE as int),
            final(self).coins@ == spawned_coins(
                old(self).level.unwrap().blocks@, BLOCK_ENTITY_BASE as int),
            final(self).game_state == old(self).game_state,
            final(self).level == old(self).level,
            final(self).player == old(self).player,
            final(self).grapple == old(self).grapple,
            final(self).camera == old(self).camera,
            final(self).next_marker == old(self).next_marker,
    {
        let mut backgrounds: Vec<BackgroundLayer> = Vec::new();
        let mut blocks: Vec<BlockEntity> = Vec::new();
        let mut enemies: Vec<EnemyEntity> = Vec::new();
        let mut coins: Vec<Coin> = Vec::new();

        let level = match &self.level {
            Some(l) => l,
            None => { return; }
        };

        let sections = level.biome.sections();
        let mut i: usize = 0;
        while i < sections.len()
            invariant
                sections@ == all_sections(),
                i <= sections@.len(),
                backgrounds@.len() == i,
                forall|k: int| 0 <= k < i
                    ==> #[trigger] backgrounds@[k] == spawned_backgrounds()[k],
            decreases sections@.len() - i,
        {
            let section = sections[i];
            backgrounds.push(BackgroundLayer {
                entity: LEVEL_ENTITY_BASE + (i as u64),
                background: Background { section },
                position: Vec2i::new(0, 108_000),
            });
            i = i + 1;
        }
        proof {
            assert(backgrounds@ =~= spawned_backgrounds());
        }

        let ghost level_blocks = level.blocks@;
        let n = level.blocks.len();
        let mut j: usize = 0;
        proof {
            assert(level_blocks.subrange(0, 0) =~= Seq::<Block>::empty());
        }
        while j < n
            invariant
                self.level == old(self).level,
                old(self).level matches Some(l) && l.blocks@ == level_blocks
                    && l.blocks@.len() <= 100_000 && l.wf(),
                n == level_blocks.len(),
                j <= level_blocks.len(),
                blocks@ == spawned_blocks(
                    level_blocks.subrange(0, j as int), BLOCK_ENTITY_BASE as int),
                enemies@ == spawned_enemies(
                    level_blocks.subrange(0, j as int), BLOCK_ENTITY_BASE as int),
                coins@ == spawned_coins(
                    level_blocks.subrange(0, j as int), BLOCK_ENTITY_BASE as int),
                forall|k: int| 0 <= k < enemies@.len()
                    ==> (#[trigger] enemies@[k]).entity < BLOCK_ENTITY_BASE + j,
                forall|k1: int, k2: int| 0 <= k1 < k2 < enemies@.len()
                    ==> enemies@[k1].entity != enemies@[k2].entity,
                forall|k: int| 0 <= k < enemies@.len()
                    ==> (#[trigger] enemies@[k]).patrol.wf()
                        && enemies@[k].damage.0 >= 0
                        && crate::in_world(enemies@[k].position.x)
                        && crate::in_world(enemies@[k].position.y),
            decreases level_blocks.len() - j,
        {
            let level = match &self.level {
                Some(l) => l,
                None => { return; }
            };
            let block = level.blocks[j];
            proof {
                assert(level_blocks.subrange(0, j + 1).drop_last()
                    =~= level_blocks.subrange(0, j as int));
                assert(level_blocks.subrange(0, j + 1).last() == level_blocks[j as int]);
            }
            match block.data {
                BlockData::Dirt => {
                    blocks.push(BlockEntity {
                        entity: BLOCK_ENTITY_BASE + (j as u64),
                        position: block.position,
                    });
                }
                BlockData::Enemy => {
                    enemies.push(EnemyEntity {
                        entity: BLOCK_ENTITY_BASE + (j as u64),
                        position: block.position,
                        translation: Vec2i::new(ENEMY_START_SPEED_X, 0),
                        patrol: Enemy {
                            direction: Direction::Right,
                            speed: Vec2i::new(ENEMY_START_SPEED_X, 0),
                            min_speed: crate::ENEMY_MIN_SPEED,
                            left_boundary: ENEMY_LEFT_BOUNDARY,
                            right_boundary: ENEMY_RIGHT_BOUNDARY,
                        },
                        damage: Damage(crate::INITIAL_HEALTH),
                    });
                }
                BlockData::Coin => {
                    coins.push(Coin {
                        entity: BLOCK_ENTITY_BASE + (j as u64),
                        position: block.position,
                    });
                }
            }
            j = j + 1;
        }
        proof {
            assert(level_blocks.subrange(0, level_blocks.len() as int) =~= level_blocks);
            lemma_spawned_coins_len(level_blocks, BLOCK_ENTITY_BASE as int);
        }

        self.backgrounds = backgrounds;
        self.blocks = blocks;
        self.enemies = enemies;
        self.coins = coins;
        self.level_state = crate::level::LevelState::Loaded;
    }
}

/// What a world looks like right after entering the game on level `level`
/// with the window `window_height` milliunits tall: the player freshly
/// spawned at the top left, and every entity table exactly what the level
/// spawns. Everything here is a function of the level and the window alone.
pub open spec fn freshly_entered(w: World, level: Level, window_height: i64) -> bool {
    &&& w.player == Some(Player::spawn_spec(
        PLAYER_ENTITY, Vec2i { x: 0, y: window_height }))
    &&& w.backgrounds@ == spawned_backgrounds()
    &&& w.blocks@ == spawned_blocks(level.blocks@, BLOCK_ENTITY_BASE as int)
    &&& w.enemies@ == spawned_enemies(level.blocks@, BLOCK_ENTITY_BASE as int)
    &&& w.coins@ == spawned_coins(level.blocks@, BLOCK_ENTITY_BASE as int)
    &&& w.game_state is InGame
    &&& w.level_state is Loaded
    &&& w.level == Some(level)
}

impl World {
    /// Starts an in-game session: the start (or restart) button takes the
    /// game state to InGame, the level leaves its waiting state, the player
    /// spawns at the top of the window, and the level's entities spawn. The
    /// session's initial world is a function of the retained level and the
    /// window height alone.
    pub fn enter_session(&mut self, window_height: i64)
        requires
            old(self).wf(),
            old(self).level matches Some(l) && l.blocks@.len() <= 100_000,
            old(self).level_state is WaitingForLevelStart,
            0 <= window_height <= crate::COORD_LIMIT,
        ensures
            final(self).wf(),
            freshly_entered(*final(self), old(self).level.unwrap(), window_height),
            final(self).level == old(self).level,
            final(self).grapple == old(self).grapple,
            final(self).camera == old(self).camera,
    {
        self.game_state.start_pressed();
        crate::level::wait_for_level_start(&mut self.level_state, &GameState::InGame);
        self.player = Some(Player::spawn(PLAYER_ENTITY, Vec2i::new(0, window_height)));
        self.coins = Vec::new();
        self.spawn_blocks();
    }

    /// Ends an in-game session (after a win or a death): every level entity
    /// — player, enemies, coins, blocks, background layers — despawns, the
    /// grappling hook resets to idle, and the level state returns to
    /// waiting. The loaded level itself is retained, so the next session
    /// spawns the same world again.
    pub fn exit_session(&mut self)
        requires
            old(self).wf(),
        ensures
            final(self).wf(),
            final(self).player is None,
            final(self).backgrounds@ =~= Seq::<BackgroundLayer>::empty(),
            final(self).blocks@ =~= Seq::<BlockEntity>::empty(),
            final(self).enemies@ =~= Seq::<EnemyEntity>::empty(),
            final(self).coins@ =~= Seq::<Coin>::empty(),
            final(self).grapple.state is Idle,
            final(self).grapple.target is None,
            final(self).level_state is WaitingForLevelStart,
            final(self).level == old(self).level,
            final(self).game_state == old(self).game_state,
            final(self).camera == old(self).camera,
    {
        self.player = None;
        self.backgrounds = Vec::new();
        self.blocks = Vec::new();
        self.enemies = Vec::new();
        self.coins = Vec::new();
        crate::grapple::cleanup(&mut self.grapple);
        crate::level::reprime_level_state(&mut self.level_state);
    }
}

/// Leaving the game and entering it again rebuilds the very same initial
/// world: two sessions entered from the same retained level and the same
/// window agree on the player and on every entity table, because exiting
/// keeps the level and entering spawns everything as a function of the
/// level alone.
pub proof fn lemma_reentry_identical(w1: World, w2: World, level: Level, window_height: i64)
    requires
        freshly_entered(w1, level, window_height),
        freshly_entered(w2, level, window_height),
    ensures
        w1.player == w2.player,
        w1.backgrounds@ == w2.backgrounds@,
        w1.blocks@ == w2.blocks@,
        w1.enemies@ == w2.enemies@,
        w1.coins@ == w2.coins@,
        w1.game_state == w2.game_state,
        w1.level_state == w2.level_state,
{
}

/// An enemy after one patrol step: turned around at a boundary, horizontal
/// speed from the ease-in/ease-out taper, and its intended translation
/// carrying its speed plus the base gravity pull.
pub open spec fn patrol_stepped(e: EnemyEntity) -> EnemyEntity {
    let d = crate::enemy::flipped_direction(
        e.patrol.direction, e.position.x as int,
        e.patrol.left_boundary as int, e.patrol.right_boundary as int);
    let sx = crate::enemy::patrol_speed_x(
        e.position.x as int, e.patrol.left_boundary as int, e.patrol.right_boundary as int,
        d, e.patrol.min_speed as int);
    EnemyEntity {
        translation: Vec2i { x: sx as i64, y: (e.patrol.speed.y + crate::GRAVITY_Y) as i64 },
        patrol: Enemy {
            direction: d,
            speed: Vec2i { x: sx as i64, y: e.patrol.speed.y },
            ..e.patrol
        },
        ..e
    }
}

/// The player's jump after the movement phase of one fixed tick: standing on
/// the ground ends any jump, and a Jump press while grounded starts a fresh
/// one; a jump in flight then advances one tick. Holding Jump while airborne
/// starts nothing.
pub open spec fn moved_jump(
    jump: Option<crate::jump::JumpComponent>,
    actions: crate::character::ActionsPressed,
    grounded: bool,
) -> Option<crate::jump::JumpComponent> {
    let after_stop = if grounded { None } else { jump };
    let after_move = if actions.jump && grounded {
        Some(crate::jump::JumpComponent::fresh_spec(
            crate::JUMP_HEIGHT as int, crate::JUMP_TIME_TO_PEAK as int))
    } else {
        after_stop
    };
    match after_move {
        Some(jc) => Some(jc.ticked()),
        None => None,
    }
}

/// The component systems of the game, run over the world in their declared
/// order: the movement half of the fixed tick before the physics step, the
/// resolution half after it.
pub struct ComponentsPlugin;

impl ComponentsPlugin {
    /// The movement half of one fixed tick, in order: a landed jump stops,
    /// the player walks and may start a jump, a live jump writes its
    /// vertical velocity, and every enemy takes a patrol step. The intended
    /// translations this leaves on the player and the enemies are what the
    /// physics adapter consumes. Without a player (between spawn and the
    /// next tick after a state transition) the player systems are no-ops;
    /// the enemies patrol either way.
    pub fn fixed_update(world: &mut World, actions: &crate::character::ActionsPressed, grounded: bool)
        requires
            old(world).wf(),
            old(world).game_state is InGame,
        ensures
            final(world).wf(),
            old(world).player is None ==> final(world).player is None,
            old(world).player matches Some(p0) ==> final(world).player matches Some(p) && {
                &&& p.jump == moved_jump(p0.jump, *actions, grounded)
                &&& p.translation.x == if actions.right {
                    p0.character.movement_speed as int
                } else if actions.left {
                    -p0.character.movement_speed as int
                } else {
                    0int
                }
                &&& p.translation.y == match p.jump {
                    Some(jc) => jc.velocity_spec(jc.elapsed as int),
                    None => crate::GRAVITY_Y as int,
                }
                &&& p.flip_x == if actions.right {
                    false
                } else if actions.left {
                    true
                } else {
                    p0.flip_x
                }
                &&& p.animating == if actions.left || actions.right {
                    true
                } else if actions.none_pressed() {
                    false
                } else {
                    p0.animating
                }
                &&& p.position == p0.position
                &&& p.health == p0.health
                &&& p.coins == p0.coins
                &&& p.character == p0.character
                &&& p.entity == p0.entity
            },
            old(world).player matches Some(p0) ==> (!grounded && p0.jump is None
                ==> final(world).player.unwrap().jump is None),
            final(world).enemies@.len() == old(world).enemies@.len(),
            forall|i: int| 0 <= i < old(world).enemies@.len()
                ==> #[trigger] final(world).enemies@[i]
                    == patrol_stepped(old(world).enemies@[i]),
            final(world).game_state == old(world).game_state,
            final(world).level_state == old(world).level_state,
            final(world).level == old(world).level,
            final(world).grapple == old(world).grapple,
            final(world).camera == old(world).camera,
            final(world).backgrounds == old(world).backgrounds,
            final(world).blocks == old(world).blocks,
            final(world).coins == old(world).coins,
            final(world).next_marker == old(world).next_marker,
    {
        match &world.player {
            Some(player) => {
                let mut p = *player;
                crate::jump::stop_jump(&mut p.jump, grounded);
                crate::character::move_character(&mut p, actions, grounded);
                match &mut p.jump {
                    Some(jc) => {
                        crate::jump::jump(jc, &mut p.translation);
                    }
                    None => {}
                }
                world.player = Some(p);
            }
            None => {}
        }

        let mut stepped: Vec<EnemyEntity> = Vec::new();
        let n = world.enemies.len();
        let mut i: usize = 0;
        while i < n
            invariant
                world.enemies == old(world).enemies,
                old(world).wf(),
                n == world.enemies@.len(),
                i <= n,
                stepped@.len() == i,
                forall|k: int| 0 <= k < i
                    ==> #[trigger] stepped@[k] == patrol_stepped(old(world).enemies@[k]),
                forall|k: int| 0 <= k < i ==> (#[trigger] stepped@[k]).patrol.wf(),
            decreases n - i,
        {
            let mut e = world.enemies[i];
            crate::enemy::swap_direction(&mut e.patrol, e.position.x);
            e.translation = crate::enemy::move_enemy(&e.patrol);
            stepped.push(e);
            i = i + 1;
        }
        world.enemies = stepped;
    }
}

/// What the physics adapter reports for one enemy after the step.
#[derive(Clone, Debug, PartialEq, Eq)]
pub struct EnemyReport {
    /// Where the step left the enemy, in milliunits.
    pub position: Vec2i,
    /// Entities the enemy's controller hit during the step.
    pub collisions: Vec<u64>,
}

/// Everything the physics adapter reports after advancing the submitted
/// translations by one step.
#[derive(Clone, Debug, PartialEq, Eq)]
pub struct PhysicsReport {
    /// Where the step left the player, in milliunits.
    pub player_position: Vec2i,
    /// Entities the player's controller hit during the step.
    pub player_collisions: Vec<u64>,
    /// One report per enemy, in the world's enemy order.
    pub enemies: Vec<EnemyReport>,
    /// Coins whose sensors the player's collider intersects.
    pub coins_touching: Vec<u64>,
}

impl PhysicsReport {
    /// The report matches the world: one enemy report per enemy, every
    /// reported position inside the world.
    pub open spec fn matches(self, w: World) -> bool {
        &&& self.enemies@.len() == w.enemies@.len()
        &&& crate::in_world(self.player_position.x)
        &&& crate::in_world(self.player_position.y)
        &&& forall|i: int| 0 <= i < self.enemies@.len()
            ==> crate::in_world((#[trigger] self.enemies@[i]).position.x)
                && crate::in_world(self.enemies@[i].position.y)
    }
}

/// The damage the tick deals, read off the physics report: the sum of the
/// damage values of the enemies that touched the player, one contribution
/// per enemy, seen from either side's collision list.
pub open spec fn report_damage(
    enemies: Seq<EnemyEntity>,
    reports: Seq<EnemyReport>,
    player_entity: u64,
    player_collisions: Seq<u64>,
) -> int
    decreases enemies.len(),
{
    if enemies.len() == 0 {
        0
    } else {
        report_damage(enemies.drop_last(), reports.drop_last(), player_entity, player_collisions)
            + if player_collisions.contains(enemies.last().entity)
                || reports.last().collisions@.contains(player_entity) {
                enemies.last().damage.0 as int
            } else {
                0int
            }
    }
}

/// A contact list that agrees with the enemy table and the physics report —
/// same identities, same damage values, same collision lists — deals the
/// same total damage.
pub proof fn lemma_report_damage_agrees(
    contacts: Seq<crate::damage::EnemyContact>,
    enemies: Seq<EnemyEntity>,
    reports: Seq<EnemyReport>,
    player_entity: u64,
    player_collisions: Seq<u64>,
)
    requires
        contacts.len() == enemies.len(),
        reports.len() == enemies.len(),
        forall|k: int| 0 <= k < enemies.len()
            ==> (#[trigger] contacts[k]).entity == enemies[k].entity
                && contacts[k].damage == enemies[k].damage
                && contacts[k].collisions@ == reports[k].collisions@,
    ensures
        crate::damage::total_damage(contacts, player_entity, player_collisions)
            == report_damage(enemies, reports, player_entity, player_collisions),
    decreases enemies.len(),
{
    if enemies.len() > 0 {
        assert(forall|k: int| 0 <= k < enemies.drop_last().len()
            ==> (#[trigger] contacts.drop_last()[k]).entity == enemies.drop_last()[k].entity
                && contacts.drop_last()[k].damage == enemies.drop_last()[k].damage
                && contacts.drop_last()[k].collisions@ == reports.drop_last()[k].collisions@);
        lemma_report_damage_agrees(
            contacts.drop_last(), enemies.drop_last(), reports.drop_last(),
            player_entity, player_collisions);
        assert(contacts.last() == contacts[enemies.len() - 1]);
    }
}

/// `x` forced into `[lo, hi]`.
pub open spec fn clamped(x: int, lo: int, hi: int) -> int {
    if x < lo { lo } else if x > hi { hi } else { x }
}

impl ComponentsPlugin {
    /// The resolution half of one fixed tick, after the physics step, in
    /// order: reported positions land in the world (each enemy clamped to
    /// its own patrol range, widened by the clamping slack), the damage pass
    /// runs, coins are picked up, then the win check and — still in the same
    /// tick — the death check.
    pub fn fixed_update_resolve(world: &mut World, report: &PhysicsReport)
        requires
            old(world).wf(),
            old(world).game_state is InGame,
            report.matches(*old(world)),
        ensures
            final(world).wf(),
            old(world).player is None ==> final(world).player is None
                && final(world).coins == old(world).coins
                && final(world).game_state == old(world).game_state,
            old(world).player matches Some(p0) ==> final(world).player matches Some(p) && {
                let dealt = report_damage(
                    old(world).enemies@, report.enemies@,
                    p0.entity, report.player_collisions@);
                &&& p.position == report.player_position
                &&& p.health.total == p0.health.total
                &&& p.health.remaining == if p0.health.remaining >= dealt {
                    p0.health.remaining - dealt
                } else {
                    0int
                }
                &&& p.health.remaining <= p0.health.remaining
                &&& p.coins.num_coins == p0.coins.num_coins + crate::collect_coin::touched_count(
                    old(world).coins@, report.coins_touching@)
                &&& p.translation == p0.translation
                &&& p.flip_x == p0.flip_x
                &&& p.animating == p0.animating
                &&& p.character == p0.character
                &&& p.jump == p0.jump
                &&& p.entity == p0.entity
            },
            old(world).player is Some ==> final(world).coins@
                == crate::collect_coin::kept_coins(old(world).coins@, report.coins_touching@),
            final(world).enemies@.len() == old(world).enemies@.len(),
            forall|i: int| 0 <= i < old(world).enemies@.len()
                ==> #[trigger] final(world).enemies@[i] == (EnemyEntity {
                    position: Vec2i {
                        x: clamped(
                            report.enemies@[i].position.x as int,
                            old(world).enemies@[i].patrol.left_boundary
                                - crate::enemy::PATROL_EPSILON,
                            old(world).enemies@[i].patrol.right_boundary
                                + crate::enemy::PATROL_EPSILON) as i64,
                        y: report.enemies@[i].position.y,
                    },
                    ..old(world).enemies@[i]
                }),
            forall|i: int| 0 <= i < final(world).enemies@.len()
                ==> old(world).enemies@[i].patrol.left_boundary - crate::enemy::PATROL_EPSILON
                    <= (#[trigger] final(world).enemies@[i]).position.x
                    <= old(world).enemies@[i].patrol.right_boundary + crate::enemy::PATROL_EPSILON,
            old(world).player is Some ==> final(world).game_state
                == if report.player_position.x >= crate::WIN_X {
                    GameState::Win
                } else if final(world).player.unwrap().health.remaining <= 0 {
                    GameState::Dead
                } else {
                    GameState::InGame
                },
            final(world).level_state == old(world).level_state,
            final(world).level == old(world).level,
            final(world).grapple == old(world).grapple,
            final(world).camera == old(world).camera,
            final(world).backgrounds == old(world).backgrounds,
            final(world).blocks == old(world).blocks,
            final(world).next_marker == old(world).next_marker,
    {
        let mut moved: Vec<EnemyEntity> = Vec::new();
        let mut contacts: Vec<crate::damage::EnemyContact> = Vec::new();
        let n = world.enemies.len();
        let mut i: usize = 0;
        while i < n
            invariant
                world.enemies == old(world).enemies,
                old(world).wf(),
                report.matches(*old(world)),
                n == world.enemies@.len(),
                i <= n,
                moved@.len() == i,
                contacts@.len() == i,
                forall|k: int| 0 <= k < i
                    ==> #[trigger] moved@[k] == (EnemyEntity {
                        position: Vec2i {
                            x: clamped(
                                report.enemies@[k].position.x as int,
                                old(world).enemies@[k].patrol.left_boundary
                                    - crate::enemy::PATROL_EPSILON,
                                old(world).enemies@[k].patrol.right_boundary
                                    + crate::enemy::PATROL_EPSILON) as i64,
                            y: report.enemies@[k].position.y,
                        },
                        ..old(world).enemies@[k]
                    }),
                forall|k: int| 0 <= k < i
                    ==> (#[trigger] contacts@[k]).entity == old(world).enemies@[k].entity
                        && contacts@[k].damage == old(world).enemies@[k].damage
                        && contacts@[k].collisions@ == report.enemies@[k].collisions@,
            decreases n - i,
        {
            let mut e = world.enemies[i];
            let cx = crate::enemy::clamp_to_patrol(
                &e.patrol, report.enemies[i].position.x, crate::enemy::PATROL_EPSILON);
            e.position = Vec2i::new(cx, report.enemies[i].position.y);
            contacts.push(crate::damage::EnemyContact {
                entity: e.entity,
                damage: e.damage,
                collisions: copy_entities(&report.enemies[i].collisions),
            });
            moved.push(e);
            i = i + 1;
        }
        world.enemies = moved;

        let mut p = match &world.player {
            Some(player) => *player,
            None => { return; }
        };
        p.position = report.player_position;

        proof {
            lemma_report_damage_agrees(
                contacts@, old(world).enemies@, report.enemies@,
                p.entity, report.player_collisions@);
        }
        crate::damage::enemy_damage_player(&mut p, &report.player_collisions, &contacts);
        proof {
            crate::collect_coin::lemma_pickup_partition(world.coins@, report.coins_touching@);
        }
        crate::collect_coin::coin_collisions(&mut p.coins, &mut world.coins, &report.coins_touching);

        crate::state::check_win(p.position.x, &mut world.game_state);
        match world.game_state {
            GameState::InGame => {
                crate::state::kills_player(&p.health, &mut world.game_state);
            }
            _ => {}
        }
        world.player = Some(p);
    }
}

/// What one render frame hands the per-frame systems: the held actions, the
/// grapple key's edge events, the answer to the frame's aim raycast, and the
/// player's collision list from the last physics step.
#[derive(Clone, Debug, PartialEq, Eq)]
pub struct FrameInput {
    pub actions: crate::character::ActionsPressed,
    pub grapple_just_pressed: bool,
    pub grapple_just_released: bool,
    /// The hit of the frame's aim ray — point and entity — or nothing on a
    /// miss or with the cursor outside the window. Only read while aiming.
    pub ray_hit: Option<(Vec2i, u64)>,
    /// Entities the player's controller hit during the last step.
    pub player_collisions: Vec<u64>,
}

impl FrameInput {
    /// Whether an action other than the grapple is held down.
    #[verifier::when_used_as_spec(other_action_pressed_spec)]
    pub fn other_action_pressed(&self) -> (r: bool)
        ensures
            r == self.other_action_pressed_spec(),
    {
        self.actions.left || self.actions.right || self.actions.jump
    }

    /// Whether an action other than the grapple is held down.
    pub open spec fn other_action_pressed_spec(&self) -> bool {
        self.actions.left || self.actions.right || self.actions.jump
    }
}

impl ComponentsPlugin {
    /// One render frame, in order: the grappling hook's systems for the
    /// hook's current state, then the camera following the player, then the
    /// parallax placing each background layer for the new camera.
    ///
    /// While idle, a grapple press (not released within the frame) starts
    /// aiming. While aiming, the frame's ray answer replaces the target (a
    /// hit takes a fresh marker identity) and the guideline is rebuilt
    /// toward it; releasing the key starts the pull when something is
    /// hooked. While grappling, the pull replaces the player's translation;
    /// pressing the key again restarts aiming, and touching the target or
    /// holding any other action ends the hook.
    pub fn update(world: &mut World, frame: &FrameInput)
        requires
            old(world).wf(),
            old(world).game_state is InGame,
            frame.ray_hit matches Some((point, _entity))
                ==> crate::in_world(point.x) && crate::in_world(point.y),
            old(world).next_marker < u64::MAX,
        ensures
            final(world).wf(),
            old(world).player is None ==> final(world).player is None
                && final(world).grapple == old(world).grapple
                && final(world).camera == old(world).camera
                && final(world).next_marker == old(world).next_marker,
            old(world).player is Some ==> final(world).player is Some,
            old(world).player is Some && old(world).grapple.state is Idle ==> {
                &&& final(world).grapple.state == if frame.grapple_just_pressed
                    && !frame.grapple_just_released {
                    crate::grapple::GrappleState::Aiming
                } else {
                    crate::grapple::GrappleState::Idle
                }
                &&& final(world).grapple.target == old(world).grapple.target
                &&& final(world).player.unwrap().translation
                    == old(world).player.unwrap().translation
                &&& final(world).player.unwrap().flip_x == old(world).player.unwrap().flip_x
            },
            old(world).player is Some && old(world).grapple.state is Aiming ==> {
                let target1 = match frame.ray_hit {
                    Some((point, attached)) => Some(crate::grapple::TargetPos {
                        point, attached, marker: old(world).next_marker }),
                    None => None::<crate::grapple::TargetPos>,
                };
                &&& final(world).grapple.target == target1
                &&& final(world).grapple.state == if !frame.grapple_just_released {
                    crate::grapple::GrappleState::Aiming
                } else if target1 is Some {
                    crate::grapple::GrappleState::Grappling
                } else {
                    crate::grapple::GrappleState::Idle
                }
                &&& frame.grapple_just_released
                    ==> final(world).grapple.guideline@ =~= Seq::<Vec2i>::empty()
                &&& target1 matches Some(t) ==> !frame.grapple_just_released ==> {
                    let p0 = old(world).player.unwrap();
                    &&& final(world).grapple.guideline@.len()
                        == crate::grapple::guideline_count(p0.position, t.point)
                    &&& forall|k: int| 0 <= k < final(world).grapple.guideline@.len()
                        ==> (#[trigger] final(world).grapple.guideline@[k]).x
                            == p0.position.x + k * crate::grapple::guideline_step_x(
                                p0.position, t.point)
                    &&& forall|k: int| 0 <= k < final(world).grapple.guideline@.len()
                        ==> (#[trigger] final(world).grapple.guideline@[k]).y
                            == p0.position.y + k * crate::grapple::guideline_step_y(
                                p0.position, t.point)
                }
                &&& (!frame.grapple_just_released && target1 is None)
                    ==> final(world).grapple.guideline@ =~= Seq::<Vec2i>::empty()
                &&& final(world).next_marker == old(world).next_marker
                    + if frame.ray_hit is Some { 1int } else { 0int }
                &&& final(world).player.unwrap().translation
                    == old(world).player.unwrap().translation
                &&& final(world).player.unwrap().flip_x == old(world).player.unwrap().flip_x
            },
            old(world).player is Some && old(world).grapple.state is Grappling ==> {
                let p0 = old(world).player.unwrap();
                let t0 = old(world).grapple.target.unwrap();
                let nx = crate::grapple::normalized_x(
                    t0.point.x - p0.position.x, t0.point.y - p0.position.y);
                let ny = crate::grapple::normalized_y(
                    t0.point.x - p0.position.x, t0.point.y - p0.position.y);
                let touching = frame.player_collisions@.contains(t0.attached);
                &&& final(world).player.unwrap().translation.x == nx * crate::PULL_STRENGTH
                &&& final(world).player.unwrap().translation.y == ny * crate::PULL_STRENGTH
                &&& final(world).player.unwrap().flip_x == (nx < 0)
                &&& final(world).grapple.state == if frame.grapple_just_pressed {
                    crate::grapple::GrappleState::Aiming
                } else if touching || frame.other_action_pressed() {
                    crate::grapple::GrappleState::Idle
                } else {
                    crate::grapple::GrappleState::Grappling
                }
                &&& final(world).grapple.target == if frame.grapple_just_pressed
                    || touching || frame.other_action_pressed() {
                    None::<crate::grapple::TargetPos>
                } else {
                    old(world).grapple.target
                }
                &&& final(world).grapple.guideline == old(world).grapple.guideline
            },
            !(old(world).grapple.state is Aiming)
                ==> final(world).next_marker == old(world).next_marker,
            old(world).player is Some ==> {
                &&& final(world).player.unwrap().position == old(world).player.unwrap().position
                &&& final(world).player.unwrap().health == old(world).player.unwrap().health
                &&& final(world).player.unwrap().coins == old(world).player.unwrap().coins
                &&& final(world).player.unwrap().jump == old(world).player.unwrap().jump
                &&& final(world).player.unwrap().animating == old(world).player.unwrap().animating
                &&& final(world).player.unwrap().character == old(world).player.unwrap().character
                &&& final(world).player.unwrap().entity == old(world).player.unwrap().entity
            },
            old(world).player is Some ==> final(world).camera.x == old(world).camera.x
                - if crate::camera::follow_delta(
                    old(world).player.unwrap().position.x as int, old(world).camera.x as int)
                    <= crate::camera::CAMERA_MAX_SPEED_X {
                    crate::camera::follow_delta(
                        old(world).player.unwrap().position.x as int, old(world).camera.x as int)
                } else {
                    crate::camera::CAMERA_MAX_SPEED_X as int
                },
            old(world).player is Some ==> final(world).camera.y == old(world).camera.y
                - if crate::camera::follow_delta(
                    old(world).player.unwrap().position.y as int, old(world).camera.y as int)
                    <= crate::camera::CAMERA_MAX_SPEED_Y {
                    crate::camera::follow_delta(
                        old(world).player.unwrap().position.y as int, old(world).camera.y as int)
                } else {
                    crate::camera::CAMERA_MAX_SPEED_Y as int
                },
            final(world).backgrounds@.len() == old(world).backgrounds@.len(),
            forall|i: int| 0 <= i < old(world).backgrounds@.len()
                ==> #[trigger] final(world).backgrounds@[i] == (BackgroundLayer {
                    position: Vec2i {
                        x: crate::background::parallax_x(
                            final(world).camera.x as int,
                            old(world).backgrounds@[i].background.section.z_spec(),
                            2_048_000) as i64,
                        y: old(world).backgrounds@[i].position.y,
                    },
                    ..old(world).backgrounds@[i]
                }),
            final(world).game_state == old(world).game_state,
            final(world).level_state == old(world).level_state,
            final(world).level == old(world).level,
            final(world).blocks == old(world).blocks,
            final(world).enemies == old(world).enemies,
            final(world).coins == old(world).coins,
    {
        match &world.player {
            Some(player) => {
                let mut p = *player;
                match world.grapple.state {
                    crate::grapple::GrappleState::Idle => {
                        crate::grapple::idle(
                            &mut world.grapple, frame.grapple_just_pressed,
                            frame.grapple_just_released);
                    }
                    crate::grapple::GrappleState::Aiming => {
                        match frame.ray_hit {
                            Some(hit) => {
                                let marker = world.next_marker;
                                world.next_marker = world.next_marker + 1;
                                crate::grapple::aim_marker(&mut world.grapple, Some(hit), marker);
                            }
                            None => {
                                crate::grapple::aim_marker(&mut world.grapple, None, 0);
                            }
                        }
                        crate::grapple::aim_guideline(&mut world.grapple, p.position);
                        crate::grapple::aim(&mut world.grapple, frame.grapple_just_released);
                    }
                    crate::grapple::GrappleState::Grappling => {
                        crate::grapple::manage_grapple(&world.grapple, &mut p);
                        crate::grapple::grapple(&mut world.grapple, frame.grapple_just_pressed);
                        match world.grapple.state {
                            crate::grapple::GrappleState::Grappling => {
                                crate::grapple::should_grapple_end(
                                    &mut world.grapple, &frame.player_collisions);
                            }
                            _ => {}
                        }
                        match world.grapple.state {
                            crate::grapple::GrappleState::Grappling => {
                                crate::grapple::end_grapple_on_other_input(
                                    &mut world.grapple, frame.other_action_pressed());
                            }
                            _ => {}
                        }
                    }
                }
                crate::camera::keep_player_in_view(&mut world.camera, p.position);
                world.player = Some(p);
            }
            None => {}
        }

        let mut layers: Vec<BackgroundLayer> = Vec::new();
        let camera_x = world.camera.x;
        let n = world.backgrounds.len();
        let mut i: usize = 0;
        while i < n
            invariant
                world.backgrounds == old(world).backgrounds,
                crate::in_world(camera_x),
                n == world.backgrounds@.len(),
                i <= n,
                layers@.len() == i,
                forall|k: int| 0 <= k < i
                    ==> #[trigger] layers@[k] == (BackgroundLayer {
                        position: Vec2i {
                            x: crate::background::parallax_x(
                                camera_x as int,
                                old(world).backgrounds@[k].background.section.z_spec(),
                                2_048_000) as i64,
                            y: old(world).backgrounds@[k].position.y,
                        },
                        ..old(world).backgrounds@[k]
                    }),
            decreases n - i,
        {
            let mut layer = world.backgrounds[i];
            layer.position = Vec2i::new(
                layer.background.new_position(camera_x), layer.position.y);
            layers.push(layer);
            i = i + 1;
        }
        world.backgrounds = layers;
    }
}

/// A list of entities, copied.
fn copy_entities(entities: &Vec<u64>) -> (r: Vec<u64>)
    ensures
        r@ == entities@,
{
    let mut r: Vec<u64> = Vec::new();
    let mut i: usize = 0;
    while i < entities.len()
        invariant
            i <= entities@.len(),
            r@ == entities@.subrange(0, i as int),
        decreases entities@.len() - i,
    {
        proof {
            assert(entities@.subrange(0, i + 1)
                =~= entities@.subrange(0, i as int).push(entities@[i as int]));
        }
        r.push(entities[i]);
        i = i + 1;
    }
    proof {
        assert(entities@.subrange(0, entities@.len() as int) =~= entities@);
    }
    r
}

/// A block list spawns no more coins than it has entries.
pub proof fn lemma_spawned_coins_len(blocks: Seq<Block>, base: int)
    ensures
        spawned_coins(blocks, base).len() <= blocks.len(),
    decreases blocks.len(),
{
    if blocks.len() > 0 {
        lemma_spawned_coins_len(blocks.drop_last(), base);
    }
}

} // verus!
