//! Component-level behavior: jumping, walking, patrol, damage, coins, the
//! grappling hook and the state machines, on concrete values.

use pollywog::character::{add_grapple_force, get_input_map, move_character, Action, ActionsPressed};
use pollywog::collect_coin::{coin_collisions, contains_entity, Coin, CoinCollector};
use pollywog::damage::{enemy_damage_player, EnemyContact};
use pollywog::enemy::{
    clamp_to_patrol, enemy_sprite_flipped, move_enemy, swap_direction, Direction, Enemy,
};
use pollywog::grapple::{
    aim, aim_guideline, aim_marker, cast_grapple_ray, cleanup, end_grapple_on_other_input,
    get_distance_to_window_edge, grapple, guideline_points, idle, manage_grapple, normalize_dir,
    should_grapple_end, Grapple, GrappleState, TargetPos,
};
use pollywog::health::{Damage, Health};
use pollywog::jump::{jump, stop_jump, JumpComponent};
use pollywog::level::{
    construct_level_res, reprime_level_state, wait_for_level_load, wait_for_level_start, Block,
    BlockData, Level, LevelAsset, LevelState,
};
use pollywog::math::{clamp_i64, div_trunc_i64, isqrt, Vec2i};
use pollywog::player::{jump_component, Player};
use pollywog::state::{check_win, kills_player, GameState};

fn pressed(left: bool, right: bool, jump: bool, grapple: bool) -> ActionsPressed {
    ActionsPressed { left, right, jump, grapple }
}

fn test_player() -> Player {
    Player::spawn(1, Vec2i::new(0, 100_000))
}

#[test]
fn isqrt_exact_values() {
    assert_eq!(isqrt(0), 0);
    assert_eq!(isqrt(1), 1);
    assert_eq!(isqrt(2), 1);
    assert_eq!(isqrt(144), 12);
    assert_eq!(isqrt(500_000), 707);
    assert_eq!(isqrt(1_000_000_000_000_000_000), 1_000_000_000);
}

#[test]
fn div_trunc_rounds_toward_zero() {
    assert_eq!(div_trunc_i64(7, 2), 3);
    assert_eq!(div_trunc_i64(-7, 2), -3);
    assert_eq!(div_trunc_i64(0, 5), 0);
}

#[test]
fn clamp_holds_bounds() {
    assert_eq!(clamp_i64(5, 0, 10), 5);
    assert_eq!(clamp_i64(-5, 0, 10), 0);
    assert_eq!(clamp_i64(15, 0, 10), 10);
}

#[test]
fn jump_profile_default() {
    // 1.5 units of apex, 30 ticks to peak: 6000 milliunits of lift-off
    // velocity, 200 lost per tick.
    let jc = JumpComponent::new(1500, 30);
    assert_eq!(jc.gravity, -200);
    assert_eq!(jc.initial_velocity, 6000);
    assert_eq!(jc.velocity_at(0), 6000);
    assert_eq!(jc.velocity_at(30), 0);
    assert_eq!(jc.velocity_at(60), -6000);
}

#[test]
fn jump_symmetric_around_peak() {
    let jc = jump_component();
    for delta in 0..=30 {
        assert_eq!(jc.velocity_at(30 - delta), -jc.velocity_at(30 + delta));
    }
}

#[test]
fn jump_tick_writes_velocity() {
    let mut jc = JumpComponent::new(1500, 30);
    let mut translation = Vec2i::new(777, 0);
    jump(&mut jc, &mut translation);
    assert_eq!(jc.elapsed, 1);
    assert_eq!(translation.x, 777);
    assert_eq!(translation.y, 5800);
}

#[test]
fn jump_elapsed_saturates() {
    let mut jc = JumpComponent::new(1500, 30);
    let mut translation = Vec2i::new(0, 0);
    for _ in 0..100 {
        jump(&mut jc, &mut translation);
    }
    assert_eq!(jc.elapsed, 60);
    assert_eq!(translation.y, -6000);
}

#[test]
fn landing_terminates_jump_and_fresh_jump_starts() {
    // A returned jump (elapsed at twice the time to peak) ends on the first
    // grounded tick; a Jump press on the next grounded tick starts a fresh
    // jump with no elapsed time.
    let mut jc = JumpComponent::new(1500, 30);
    let mut translation = Vec2i::new(0, 0);
    for _ in 0..60 {
        jump(&mut jc, &mut translation);
    }
    let mut slot = Some(jc);
    stop_jump(&mut slot, false);
    assert!(slot.is_some());
    stop_jump(&mut slot, true);
    assert!(slot.is_none());

    let mut p = test_player();
    p.jump = slot;
    move_character(&mut p, &pressed(false, false, true, false), true);
    let fresh = p.jump.expect("grounded jump press starts a jump");
    assert_eq!(fresh.elapsed, 0);
    assert_eq!(fresh.initial_velocity, 6000);
}

#[test]
fn jump_pressed_airborne_starts_nothing() {
    let mut p = test_player();
    move_character(&mut p, &pressed(false, false, true, false), false);
    assert!(p.jump.is_none());
}

#[test]
fn jump_pressed_while_jumping_keeps_jump() {
    let mut p = test_player();
    let mut in_flight = JumpComponent::new(1500, 30);
    let mut translation = Vec2i::new(0, 0);
    jump(&mut in_flight, &mut translation);
    p.jump = Some(in_flight);
    move_character(&mut p, &pressed(false, false, true, false), false);
    assert_eq!(p.jump, Some(in_flight));
}

#[test]
fn walk_left_and_right() {
    let mut p = test_player();
    move_character(&mut p, &pressed(true, false, false, false), true);
    assert_eq!(p.translation.x, -3000);
    assert_eq!(p.translation.y, -9810);
    assert!(p.flip_x);
    assert!(p.animating);

    move_character(&mut p, &pressed(false, true, false, false), true);
    assert_eq!(p.translation.x, 3000);
    assert!(!p.flip_x);
    assert!(p.animating);
}

#[test]
fn right_wins_when_both_held() {
    let mut p = test_player();
    move_character(&mut p, &pressed(true, true, false, false), true);
    assert_eq!(p.translation.x, 3000);
    assert!(!p.flip_x);
}

#[test]
fn no_action_clears_animation_and_walk() {
    let mut p = test_player();
    move_character(&mut p, &pressed(false, true, false, false), true);
    assert!(p.animating);
    move_character(&mut p, &pressed(false, false, false, false), true);
    assert!(!p.animating);
    assert_eq!(p.translation.x, 0);
    assert_eq!(p.translation.y, -9810);
}

#[test]
fn patrol_speed_tapers_from_wall_to_middle() {
    // Boundaries at tiles 7 and 12. At the left wall the enemy barely moves
    // (the floor of a tenth of a unit); at the midpoint it is fastest.
    let left = 448_000;
    let right = 768_000;
    let mut e = Enemy::new(Vec2i::new(2000, 0), left, right);

    swap_direction(&mut e, left);
    assert_eq!(e.speed.x, 2 * (0 + 100));

    swap_direction(&mut e, (left + right) / 2);
    assert_eq!(e.speed.x, 2 * (707 + 100));

    swap_direction(&mut e, right);
    assert_eq!(e.speed.x, -2 * (0 + 100));
}

#[test]
fn patrol_direction_flips_exactly_at_boundaries() {
    let left = 448_000;
    let right = 768_000;
    let mut e = Enemy::new(Vec2i::new(2000, 0), left, right);
    swap_direction(&mut e, right);
    assert!(matches!(e.direction, Direction::Left));
    swap_direction(&mut e, right - 1);
    assert!(matches!(e.direction, Direction::Left));
    swap_direction(&mut e, left);
    assert!(matches!(e.direction, Direction::Right));
    swap_direction(&mut e, left + 1);
    assert!(matches!(e.direction, Direction::Right));
}

#[test]
fn patrol_position_clamps_to_widened_range() {
    let e = Enemy::new(Vec2i::new(2000, 0), 448_000, 768_000);
    assert_eq!(clamp_to_patrol(&e, 500_000, 4000), 500_000);
    assert_eq!(clamp_to_patrol(&e, 447_000, 4000), 447_000);
    assert_eq!(clamp_to_patrol(&e, 400_000, 4000), 444_000);
    assert_eq!(clamp_to_patrol(&e, 800_000, 4000), 772_000);
}

#[test]
fn enemy_translation_adds_gravity() {
    let e = Enemy::new(Vec2i::new(2000, 0), 0, 768_000);
    let t = move_enemy(&e);
    assert_eq!(t.x, 2000);
    assert_eq!(t.y, -9810);
}

#[test]
fn enemy_sprite_faces_walk() {
    let mut e = Enemy::new(Vec2i::new(2000, 0), 0, 768_000);
    assert!(!enemy_sprite_flipped(&e));
    swap_direction(&mut e, 768_000);
    assert!(enemy_sprite_flipped(&e));
}

#[test]
fn health_never_goes_below_zero_or_up() {
    let mut h = Health::full(100);
    h.take_damage(30);
    assert_eq!(h.remaining, 70);
    h.take_damage(0);
    assert_eq!(h.remaining, 70);
    h.take_damage(100);
    assert_eq!(h.remaining, 0);
    h.take_damage(5);
    assert_eq!(h.remaining, 0);
    assert_eq!(h.total, 100);
}

#[test]
fn one_hit_kill_then_dead_same_tick() {
    // Enemy damage equal to full health: the touch empties the health and
    // the death check that runs next flips the game state.
    let mut p = test_player();
    let enemies = vec![EnemyContact { entity: 9, damage: Damage(100), collisions: vec![] }];
    enemy_damage_player(&mut p, &vec![9], &enemies);
    assert_eq!(p.health.remaining, 0);

    let mut gs = GameState::InGame;
    kills_player(&p.health, &mut gs);
    assert_eq!(gs, GameState::Dead);
}

#[test]
fn damage_counted_once_from_both_sides() {
    // The same touch reported by the player's controller and by the enemy's
    // controller costs the player only one damage value.
    let mut p = test_player();
    let enemies = vec![EnemyContact { entity: 9, damage: Damage(30), collisions: vec![1] }];
    enemy_damage_player(&mut p, &vec![9], &enemies);
    assert_eq!(p.health.remaining, 70);
}

#[test]
fn damage_only_from_touching_enemies() {
    let mut p = test_player();
    let enemies = vec![
        EnemyContact { entity: 9, damage: Damage(30), collisions: vec![] },
        EnemyContact { entity: 10, damage: Damage(25), collisions: vec![1] },
        EnemyContact { entity: 11, damage: Damage(40), collisions: vec![] },
    ];
    enemy_damage_player(&mut p, &vec![11], &enemies);
    assert_eq!(p.health.remaining, 100 - 25 - 40);
}

#[test]
fn coin_pickup_despawns_and_counts() {
    let mut collector = CoinCollector { num_coins: 0 };
    let mut coins = vec![Coin { entity: 5, position: Vec2i::new(200_000, 0) }];
    coin_collisions(&mut collector, &mut coins, &vec![5]);
    assert_eq!(collector.num_coins, 1);
    assert!(coins.is_empty());
}

#[test]
fn untouched_coins_stay() {
    let mut collector = CoinCollector { num_coins: 2 };
    let mut coins = vec![
        Coin { entity: 5, position: Vec2i::new(200_000, 0) },
        Coin { entity: 6, position: Vec2i::new(300_000, 0) },
        Coin { entity: 7, position: Vec2i::new(400_000, 0) },
    ];
    coin_collisions(&mut collector, &mut coins, &vec![6]);
    assert_eq!(collector.num_coins, 3);
    assert_eq!(coins.len(), 2);
    assert_eq!(coins[0].entity, 5);
    assert_eq!(coins[1].entity, 7);
}

#[test]
fn contains_entity_finds_members() {
    assert!(contains_entity(&vec![1, 2, 3], 2));
    assert!(!contains_entity(&vec![1, 2, 3], 4));
    assert!(!contains_entity(&vec![], 1));
}

#[test]
fn press_and_release_same_tick_stays_idle() {
    let mut g = Grapple::new();
    idle(&mut g, true, true);
    assert_eq!(g.state, GrappleState::Idle);
}

#[test]
fn press_alone_starts_aiming() {
    let mut g = Grapple::new();
    idle(&mut g, true, false);
    assert_eq!(g.state, GrappleState::Aiming);
}

#[test]
fn aiming_hit_then_release_starts_pull() {
    let mut g = Grapple::new();
    idle(&mut g, true, false);
    aim_marker(&mut g, Some((Vec2i::new(300_000, 0), 7)), 42);
    let target = g.target.expect("a hit stores the target");
    assert_eq!(target.attached, 7);
    assert_eq!(target.marker, 42);
    aim(&mut g, true);
    assert_eq!(g.state, GrappleState::Grappling);
}

#[test]
fn aiming_miss_clears_target_and_release_goes_idle() {
    let mut g = Grapple::new();
    idle(&mut g, true, false);
    aim_marker(&mut g, Some((Vec2i::new(300_000, 0), 7)), 42);
    aim_marker(&mut g, None, 0);
    assert!(g.target.is_none());
    aim(&mut g, true);
    assert_eq!(g.state, GrappleState::Idle);
}

#[test]
fn grapple_pull_replaces_translation_until_contact() {
    // A target three hundred units to the right: the pull is ten units
    // straight toward it, and touching the target ends the hook.
    let mut g = Grapple::new();
    g.state = GrappleState::Grappling;
    g.target = Some(TargetPos { point: Vec2i::new(300_000, 0), attached: 7, marker: 42 });

    let mut p = test_player();
    p.position = Vec2i::new(0, 0);
    manage_grapple(&g, &mut p);
    assert_eq!(p.translation.x, 10_000);
    assert_eq!(p.translation.y, 0);
    assert!(!p.flip_x);

    should_grapple_end(&mut g, &vec![3, 7]);
    assert_eq!(g.state, GrappleState::Idle);
    assert!(g.target.is_none());
}

#[test]
fn grapple_pull_faces_leftward_target() {
    let mut g = Grapple::new();
    g.state = GrappleState::Grappling;
    g.target = Some(TargetPos { point: Vec2i::new(-400_000, 0), attached: 7, marker: 42 });
    let mut p = test_player();
    p.position = Vec2i::new(0, 0);
    manage_grapple(&g, &mut p);
    assert_eq!(p.translation.x, -10_000);
    assert!(p.flip_x);
}

#[test]
fn other_input_ends_grapple() {
    let mut g = Grapple::new();
    g.state = GrappleState::Grappling;
    g.target = Some(TargetPos { point: Vec2i::new(300_000, 0), attached: 7, marker: 42 });
    end_grapple_on_other_input(&mut g, true);
    assert_eq!(g.state, GrappleState::Idle);
    assert!(g.target.is_none());
}

#[test]
fn grapple_press_restarts_aiming() {
    let mut g = Grapple::new();
    g.state = GrappleState::Grappling;
    g.target = Some(TargetPos { point: Vec2i::new(300_000, 0), attached: 7, marker: 42 });
    grapple(&mut g, true);
    assert_eq!(g.state, GrappleState::Aiming);
    assert!(g.target.is_none());
}

#[test]
fn cleanup_resets_hook() {
    let mut g = Grapple::new();
    g.state = GrappleState::Grappling;
    g.target = Some(TargetPos { point: Vec2i::new(300_000, 0), attached: 7, marker: 42 });
    g.guideline = vec![Vec2i::new(0, 0)];
    cleanup(&mut g);
    assert_eq!(g.state, GrappleState::Idle);
    assert!(g.target.is_none());
    assert!(g.guideline.is_empty());
}

#[test]
fn guideline_dots_are_evenly_spaced() {
    let dots = guideline_points(Vec2i::new(0, 0), Vec2i::new(160_000, 0));
    assert_eq!(dots.len(), 3);
    assert_eq!(dots[0], Vec2i::new(0, 0));
    assert_eq!(dots[1], Vec2i::new(50_000, 0));
    assert_eq!(dots[2], Vec2i::new(100_000, 0));
}

#[test]
fn guideline_empty_when_target_close() {
    let dots = guideline_points(Vec2i::new(0, 0), Vec2i::new(49_999, 0));
    assert!(dots.is_empty());
}

#[test]
fn aim_guideline_follows_target() {
    let mut g = Grapple::new();
    idle(&mut g, true, false);
    aim_marker(&mut g, Some((Vec2i::new(160_000, 0), 7)), 42);
    aim_guideline(&mut g, Vec2i::new(0, 0));
    assert_eq!(g.guideline.len(), 3);
    aim_marker(&mut g, None, 0);
    aim_guideline(&mut g, Vec2i::new(0, 0));
    assert!(g.guideline.is_empty());
}

#[test]
fn normalize_dir_unit_lengths() {
    let d = normalize_dir(Vec2i::new(0, 0), Vec2i::new(300_000, 0));
    assert_eq!(d, Vec2i::new(1000, 0));
    let d = normalize_dir(Vec2i::new(0, 0), Vec2i::new(0, -200_000));
    assert_eq!(d, Vec2i::new(0, -1000));
    let d = normalize_dir(Vec2i::new(0, 0), Vec2i::new(0, 0));
    assert_eq!(d, Vec2i::new(0, 0));
    let d = normalize_dir(Vec2i::new(0, 0), Vec2i::new(30_000, 40_000));
    assert_eq!(d, Vec2i::new(600, 800));
}

#[test]
fn pull_scales_direction() {
    let mut p = test_player();
    add_grapple_force(&mut p, Vec2i::new(600, 800));
    assert_eq!(p.translation, Vec2i::new(6000, 8000));
}

#[test]
fn window_edge_distance_picks_nearest_axis() {
    let d = get_distance_to_window_edge(
        Vec2i::new(100_000, 100_000), Vec2i::new(1_000_000, 500_000), Vec2i::new(1000, 0));
    assert_eq!(d, 900_000);
    let d = get_distance_to_window_edge(
        Vec2i::new(100_000, 100_000), Vec2i::new(1_000_000, 500_000), Vec2i::new(0, -1000));
    assert_eq!(d, 100_000);
    let d = get_distance_to_window_edge(
        Vec2i::new(100_000, 100_000), Vec2i::new(1_000_000, 500_000), Vec2i::new(707, 707));
    assert_eq!(d, (400_000 * 1000) / 707);
}

#[test]
fn aim_ray_needs_a_cursor() {
    assert!(cast_grapple_ray(
        Vec2i::new(0, 0), None, Vec2i::new(100_000, 100_000), Vec2i::new(1_000_000, 500_000))
        .is_none());
    let q = cast_grapple_ray(
        Vec2i::new(0, 0), Some(Vec2i::new(300_000, 0)),
        Vec2i::new(100_000, 100_000), Vec2i::new(1_000_000, 500_000))
        .expect("a cursor away from the player makes a ray");
    assert_eq!(q.direction, Vec2i::new(1000, 0));
    assert_eq!(q.max_distance, 900_000);
}

#[test]
fn game_state_cycle() {
    let mut gs = GameState::default();
    assert_eq!(gs, GameState::StartScreen);
    gs.start_pressed();
    assert_eq!(gs, GameState::InGame);
    check_win(2_048_000, &mut gs);
    assert_eq!(gs, GameState::Win);
    gs.esc_pressed();
    assert_eq!(gs, GameState::StartScreen);
}

#[test]
fn win_needs_goal_column() {
    let mut gs = GameState::InGame;
    check_win(2_047_999, &mut gs);
    assert_eq!(gs, GameState::InGame);
    check_win(2_048_000, &mut gs);
    assert_eq!(gs, GameState::Win);
}

#[test]
fn survivor_stays_in_game() {
    let mut gs = GameState::InGame;
    kills_player(&Health::full(1), &mut gs);
    assert_eq!(gs, GameState::InGame);
}

#[test]
fn level_scales_tiles_to_world() {
    let asset = LevelAsset {
        name: String::from("hello"),
        biome: pollywog::background::Biome::Swamp,
        blocks: vec![
            Block { data: BlockData::Dirt, position: Vec2i::new(2, 3) },
            Block { data: BlockData::Coin, position: Vec2i::new(-1, 0) },
        ],
    };
    let level = Level::from(asset);
    assert_eq!(level.name, "hello");
    assert_eq!(level.blocks[0].position, Vec2i::new(128_000, 192_000));
    assert_eq!(level.blocks[1].position, Vec2i::new(-64_000, 0));
}

#[test]
fn level_lifecycle_walks_its_states() {
    let mut ls = LevelState::default();
    assert_eq!(ls, LevelState::LoadingAssets);
    wait_for_level_load(&mut ls, false);
    assert_eq!(ls, LevelState::LoadingAssets);
    wait_for_level_load(&mut ls, true);
    assert_eq!(ls, LevelState::ConstructingLevel);

    let level = construct_level_res(&mut ls, Some(LevelAsset {
        name: String::from("hello"),
        biome: pollywog::background::Biome::Swamp,
        blocks: vec![],
    }));
    assert!(level.is_some());
    assert_eq!(ls, LevelState::WaitingForLevelStart);

    wait_for_level_start(&mut ls, &GameState::StartScreen);
    assert_eq!(ls, LevelState::WaitingForLevelStart);
    wait_for_level_start(&mut ls, &GameState::InGame);
    assert_eq!(ls, LevelState::SpawningBlocks);

    reprime_level_state(&mut ls);
    assert_eq!(ls, LevelState::WaitingForLevelStart);
}

#[test]
fn default_bindings_cover_all_actions() {
    let bindings = get_input_map();
    assert_eq!(bindings.len(), 9);
    assert_eq!(bindings[0], (Action::Left, "ArrowLeft"));
    assert_eq!(bindings[6], (Action::Jump, "Space"));
    assert_eq!(bindings[8], (Action::Grapple, "Slash"));
    for action in [Action::Left, Action::Right, Action::Jump, Action::Grapple] {
        assert!(bindings.iter().any(|(a, _)| *a == action));
    }
}

#[test]
fn grapple_state_cycles() {
    assert_eq!(GrappleState::Idle.next(), GrappleState::Aiming);
    assert_eq!(GrappleState::Aiming.next(), GrappleState::Grappling);
    assert_eq!(GrappleState::Grappling.next(), GrappleState::Idle);
    assert_eq!(GrappleState::default(), GrappleState::Idle);
}

#[test]
fn direction_signum() {
    assert_eq!(Direction::Right.signum(), 1);
    assert_eq!(Direction::Left.signum(), -1);
}

#[test]
fn health_constructors() {
    let h = Health::new(40, 100);
    assert_eq!(h.remaining, 40);
    assert_eq!(h.total, 100);
    let h = Health::full(100);
    assert_eq!(h.remaining, 100);
    let h = Health::default();
    assert_eq!(h.remaining, 100);
    assert_eq!(h.total, 100);
}

#[test]
fn spawned_player_defaults() {
    let p = Player::spawn(1, Vec2i::new(0, 500_000));
    assert_eq!(p.entity, 1);
    assert_eq!(p.position, Vec2i::new(0, 500_000));
    assert_eq!(p.health.remaining, 100);
    assert_eq!(p.coins.num_coins, 0);
    assert_eq!(p.character.movement_speed, 3000);
    assert!(p.jump.is_none());
    assert!(!p.flip_x);
    assert!(!p.animating);
    assert_eq!(p.translation, Vec2i::new(0, -9810));
    assert_eq!(jump_component(), JumpComponent::new(1500, 30));
}

#[test]
fn missing_descriptor_stays_constructing() {
    let mut ls = LevelState::ConstructingLevel;
    assert!(construct_level_res(&mut ls, None).is_none());
    assert_eq!(ls, LevelState::ConstructingLevel);
}
