//! Whole-world behavior: spawning a session from a level, the two halves of
//! the fixed tick, the per-frame systems, and the camera and parallax.

use pollywog::background::{map_transparency, Background, BackgroundSection, Biome};
use pollywog::camera::{follow, keep_player_in_view};
use pollywog::character::ActionsPressed;
use pollywog::animated_sprite::AnimationIndices;
use pollywog::level::{Block, BlockData, Level, LevelAsset, LevelState};
use pollywog::math::Vec2i;
use pollywog::state::GameState;
use pollywog::world::{ComponentsPlugin, EnemyReport, FrameInput, PhysicsReport, World};

fn test_level() -> Level {
    Level::from(LevelAsset {
        name: String::from("hello"),
        biome: Biome::Swamp,
        blocks: vec![
            Block { data: BlockData::Dirt, position: Vec2i::new(1, 0) },
            Block { data: BlockData::Enemy, position: Vec2i::new(3, 0) },
            Block { data: BlockData::Coin, position: Vec2i::new(5, 0) },
            Block { data: BlockData::Dirt, position: Vec2i::new(6, 0) },
        ],
    })
}

fn entered_world() -> World {
    let mut w = World::new();
    w.level = Some(test_level());
    w.level_state = LevelState::WaitingForLevelStart;
    w.enter_session(500_000);
    w
}

fn no_actions() -> ActionsPressed {
    ActionsPressed { left: false, right: false, jump: false, grapple: false }
}

fn quiet_frame() -> FrameInput {
    FrameInput {
        actions: no_actions(),
        grapple_just_pressed: false,
        grapple_just_released: false,
        ray_hit: None,
        player_collisions: vec![],
    }
}

fn still_report(w: &World) -> PhysicsReport {
    PhysicsReport {
        player_position: w.player.as_ref().unwrap().position,
        player_collisions: vec![],
        enemies: w.enemies.iter().map(|e| EnemyReport {
            position: e.position,
            collisions: vec![],
        }).collect(),
        coins_touching: vec![],
    }
}

#[test]
fn entering_spawns_level_entities_in_order() {
    let w = entered_world();
    assert_eq!(w.game_state, GameState::InGame);
    assert_eq!(w.level_state, LevelState::Loaded);

    let p = w.player.as_ref().expect("entering spawns the player");
    assert_eq!(p.position, Vec2i::new(0, 500_000));
    assert_eq!(p.health.remaining, 100);
    assert_eq!(p.coins.num_coins, 0);

    assert_eq!(w.backgrounds.len(), 9);
    assert_eq!(w.backgrounds[0].entity, 2);
    assert_eq!(w.backgrounds[8].entity, 10);
    assert_eq!(w.backgrounds[0].position, Vec2i::new(0, 108_000));

    assert_eq!(w.blocks.len(), 2);
    assert_eq!(w.blocks[0].entity, 11);
    assert_eq!(w.blocks[0].position, Vec2i::new(64_000, 0));
    assert_eq!(w.blocks[1].entity, 14);

    assert_eq!(w.enemies.len(), 1);
    assert_eq!(w.enemies[0].entity, 12);
    assert_eq!(w.enemies[0].position, Vec2i::new(192_000, 0));
    assert_eq!(w.enemies[0].damage.0, 100);

    assert_eq!(w.coins.len(), 1);
    assert_eq!(w.coins[0].entity, 13);
    assert_eq!(w.coins[0].position, Vec2i::new(320_000, 0));
}

#[test]
fn reentering_rebuilds_the_same_world() {
    // Leaving the game keeps the level; entering again spawns entity for
    // entity the same initial world.
    let mut w = entered_world();
    let first = w.clone();
    w.exit_session();
    assert!(w.player.is_none());
    assert!(w.enemies.is_empty());
    assert_eq!(w.level_state, LevelState::WaitingForLevelStart);
    assert_eq!(w.level, first.level);
    w.enter_session(500_000);
    assert_eq!(w, first);
}

#[test]
fn fixed_tick_walks_and_patrols() {
    let mut w = entered_world();
    ComponentsPlugin::fixed_update(
        &mut w, &ActionsPressed { left: false, right: true, jump: false, grapple: false }, false);
    let p = w.player.as_ref().unwrap();
    assert_eq!(p.translation, Vec2i::new(3000, -9810));
    assert!(!p.flip_x);
    // The lone enemy starts at its patrol midpoint-ish position and walks
    // right with the tapered speed plus gravity.
    let e = &w.enemies[0];
    assert!(e.translation.x > 0);
    assert_eq!(e.translation.y, -9810);
    assert_eq!(e.translation.x, e.patrol.speed.x);
}

#[test]
fn fixed_tick_grounded_jump_press_starts_jump() {
    let mut w = entered_world();
    ComponentsPlugin::fixed_update(
        &mut w, &ActionsPressed { left: false, right: false, jump: true, grapple: false }, true);
    let p = w.player.as_ref().unwrap();
    let jc = p.jump.expect("grounded jump press starts the jump");
    assert_eq!(jc.elapsed, 1);
    assert_eq!(p.translation.y, 5800);
}

#[test]
fn fixed_tick_airborne_jump_press_starts_nothing() {
    let mut w = entered_world();
    ComponentsPlugin::fixed_update(
        &mut w, &ActionsPressed { left: false, right: false, jump: true, grapple: false }, false);
    assert!(w.player.as_ref().unwrap().jump.is_none());
    assert_eq!(w.player.as_ref().unwrap().translation.y, -9810);
}

#[test]
fn resolve_moves_and_clamps() {
    let mut w = entered_world();
    let mut report = still_report(&w);
    report.player_position = Vec2i::new(10_000, 480_000);
    // The physics step left the enemy far past its right boundary: the world
    // clamps it back to the widened patrol range.
    report.enemies[0].position = Vec2i::new(900_000, 0);
    ComponentsPlugin::fixed_update_resolve(&mut w, &report);
    assert_eq!(w.player.as_ref().unwrap().position, Vec2i::new(10_000, 480_000));
    assert_eq!(w.enemies[0].position.x, 768_000 + 4000);
    assert_eq!(w.game_state, GameState::InGame);
}

#[test]
fn resolve_collects_touched_coin() {
    let mut w = entered_world();
    let mut report = still_report(&w);
    report.coins_touching = vec![13];
    ComponentsPlugin::fixed_update_resolve(&mut w, &report);
    assert_eq!(w.player.as_ref().unwrap().coins.num_coins, 1);
    assert!(w.coins.is_empty());
}

#[test]
fn resolve_one_touch_kills() {
    let mut w = entered_world();
    let mut report = still_report(&w);
    report.player_collisions = vec![12];
    ComponentsPlugin::fixed_update_resolve(&mut w, &report);
    assert_eq!(w.player.as_ref().unwrap().health.remaining, 0);
    assert_eq!(w.game_state, GameState::Dead);
}

#[test]
fn resolve_reaching_goal_wins() {
    let mut w = entered_world();
    let mut report = still_report(&w);
    report.player_position = Vec2i::new(2_048_000, 500_000);
    ComponentsPlugin::fixed_update_resolve(&mut w, &report);
    assert_eq!(w.game_state, GameState::Win);
}

#[test]
fn frame_aim_and_pull_through_the_world() {
    let mut w = entered_world();

    // Press: idle starts aiming.
    let mut frame = quiet_frame();
    frame.grapple_just_pressed = true;
    ComponentsPlugin::update(&mut w, &frame);
    assert_eq!(w.grapple.state, pollywog::grapple::GrappleState::Aiming);

    // Aiming with a hit: the target and its marker appear.
    let mut frame = quiet_frame();
    frame.ray_hit = Some((Vec2i::new(300_000, 500_000), 11));
    ComponentsPlugin::update(&mut w, &frame);
    let target = w.grapple.target.expect("the hit is stored");
    assert_eq!(target.attached, 11);

    // Release with a fresh hit: the pull starts.
    let mut frame = quiet_frame();
    frame.ray_hit = Some((Vec2i::new(300_000, 500_000), 11));
    frame.grapple_just_released = true;
    ComponentsPlugin::update(&mut w, &frame);
    assert_eq!(w.grapple.state, pollywog::grapple::GrappleState::Grappling);
    assert!(w.grapple.guideline.is_empty());

    // Grappling: the translation is wholly the pull toward the target.
    let frame = quiet_frame();
    ComponentsPlugin::update(&mut w, &frame);
    assert_eq!(w.player.as_ref().unwrap().translation, Vec2i::new(10_000, 0));

    // Touching the target ends the hook and despawns the target.
    let mut frame = quiet_frame();
    frame.player_collisions = vec![11];
    ComponentsPlugin::update(&mut w, &frame);
    assert_eq!(w.grapple.state, pollywog::grapple::GrappleState::Idle);
    assert!(w.grapple.target.is_none());
}

#[test]
fn frame_press_and_release_same_tick_stays_idle() {
    let mut w = entered_world();
    let mut frame = quiet_frame();
    frame.grapple_just_pressed = true;
    frame.grapple_just_released = true;
    ComponentsPlugin::update(&mut w, &frame);
    assert_eq!(w.grapple.state, pollywog::grapple::GrappleState::Idle);
}

#[test]
fn frame_other_input_ends_pull() {
    let mut w = entered_world();
    let mut frame = quiet_frame();
    frame.grapple_just_pressed = true;
    ComponentsPlugin::update(&mut w, &frame);
    let mut frame = quiet_frame();
    frame.ray_hit = Some((Vec2i::new(300_000, 500_000), 11));
    frame.grapple_just_released = true;
    ComponentsPlugin::update(&mut w, &frame);
    assert_eq!(w.grapple.state, pollywog::grapple::GrappleState::Grappling);

    let mut frame = quiet_frame();
    frame.actions.left = true;
    ComponentsPlugin::update(&mut w, &frame);
    assert_eq!(w.grapple.state, pollywog::grapple::GrappleState::Idle);
}

#[test]
fn ticks_without_player_leave_player_systems_alone() {
    // Between a state transition and the next spawn there is no player: the
    // player systems are no-ops, while the enemies still patrol and the
    // physics step still lands them.
    let mut w = entered_world();
    let report = still_report(&w);
    w.player = None;

    ComponentsPlugin::fixed_update(
        &mut w, &ActionsPressed { left: false, right: true, jump: false, grapple: false }, true);
    assert!(w.player.is_none());
    assert!(w.enemies[0].translation.x > 0);

    let coins_before = w.coins.len();
    let state_before = w.game_state;
    ComponentsPlugin::fixed_update_resolve(&mut w, &report);
    assert!(w.player.is_none());
    assert_eq!(w.coins.len(), coins_before);
    assert_eq!(w.game_state, state_before);

    let grapple_before = w.grapple.clone();
    ComponentsPlugin::update(&mut w, &quiet_frame());
    assert!(w.player.is_none());
    assert_eq!(w.grapple, grapple_before);
}

#[test]
fn camera_follows_with_caps_and_dead_zone() {
    let mut b: i64 = 100_000;
    follow(0, &mut b, 3000);
    assert_eq!(b, 99_000);

    let mut b: i64 = 20_000;
    follow(0, &mut b, 3000);
    assert_eq!(b, 20_000);

    let mut b: i64 = 1_000_000;
    follow(0, &mut b, 3000);
    assert_eq!(b, 997_000);

    let mut camera = Vec2i::new(100_000, 400_000);
    keep_player_in_view(&mut camera, Vec2i::new(0, 0));
    assert_eq!(camera, Vec2i::new(99_000, 399_000));
}

#[test]
fn parallax_deeper_layers_move_less() {
    // With the camera 42 units left, each layer shifts by a thousand
    // milliunits per step of remaining depth, past the fixed width offset.
    let hills2 = Background { section: BackgroundSection::SwampHills2 };
    let island0 = Background { section: BackgroundSection::SwampIsland0 };
    let pond = Background { section: BackgroundSection::SwampPond };
    let x_hills2 = hills2.new_position(-42_000);
    let x_island0 = island0.new_position(-42_000);
    let x_pond = pond.new_position(-42_000);
    let width_fifth = 2_048_000 / 5;
    assert_eq!(x_hills2 - width_fifth, 8000);
    assert_eq!(x_island0 - width_fifth, 3000);
    assert_eq!(x_pond - width_fifth, 0);
    // Proportionality between two layers: the shifts stand in the ratio of
    // the remaining depths.
    assert_eq!((x_island0 - width_fifth) * 8, (x_hills2 - width_fifth) * 3);
}

#[test]
fn frame_update_places_layers_by_depth() {
    let mut w = entered_world();
    w.camera = Vec2i::new(-42_000, 0);
    // A quiet frame with the player at the camera's x keeps the camera put.
    if let Some(p) = w.player.as_mut() {
        p.position = Vec2i::new(-42_000, 0);
    }
    ComponentsPlugin::update(&mut w, &quiet_frame());
    assert_eq!(w.camera.x, -42_000);
    let width_fifth = 2_048_000 / 5;
    // backgrounds[2] is the deepest hills layer (depth 0), backgrounds[8]
    // the pond (depth 8).
    assert_eq!(w.backgrounds[2].position.x - width_fifth, 8000);
    assert_eq!(w.backgrounds[8].position.x - width_fifth, 0);
}

#[test]
fn transparency_maps_to_lightness() {
    assert_eq!(map_transparency(0), 420);
    assert_eq!(map_transparency(150), 100);
    assert_eq!(map_transparency(100), 206);
}

#[test]
fn section_tables_are_consistent() {
    let sections = BackgroundSection::enumerate();
    assert_eq!(sections.len(), 9);
    assert_eq!(Biome::Swamp.sections().len(), 9);
    for section in &sections {
        let z = section.z();
        assert!((0..=8).contains(&z));
        let t = section.transparency();
        assert!((0..=150).contains(&t));
        assert!(section.texture_path().starts_with("backgrounds/swamp/"));
        assert_eq!(section.size(), Vec2i::new(2_048_000, 540_000));
    }
}

#[test]
fn animation_index_wraps() {
    let indices = AnimationIndices { first: 0, last: 8 };
    assert_eq!(indices.next(0), 1);
    assert_eq!(indices.next(6), 7);
    assert_eq!(indices.next(7), 0);
    assert_eq!(indices.next(12), 0);
}
