//! The grappling hook: a three-state machine (Idle -> Aiming -> Grappling ->
//! Idle). Aiming casts a ray from the player toward the cursor and marks the
//! hit point; releasing the key starts the pull; the pull replaces the
//! player's translation each tick until the player touches the target or
//! presses any other action. While grappling the machine always holds a
//! target.

use vstd::prelude::*;

use crate::character::add_grapple_force;
use crate::math::{div_trunc, div_trunc_i64, isqrt, isqrt_spec, Vec2i};
use crate::player::Player;

verus! {

/// The three states of the grappling hook.
#[derive(Clone, Copy, Debug, PartialEq, Eq, Hash, Structural)]
pub enum GrappleState {
    Idle,
    Aiming,
    Grappling,
}

impl Default for GrappleState {
    /// The hook starts idle.
    fn default() -> (s: GrappleState)
        ensures
            s is Idle,
    {
        GrappleState::Idle
    }
}

impl GrappleState {
    /// The successor in the hook's cycle: Idle aims, Aiming grapples,
    /// Grappling returns to idle.
    pub fn next(&self) -> (s: GrappleState)
        ensures
            *self is Idle ==> s is Aiming,
            *self is Aiming ==> s is Grappling,
            *self is Grappling ==> s is Idle,
    {
        match self {
            GrappleState::Idle => GrappleState::Aiming,
            GrappleState::Aiming => GrappleState::Grappling,
            GrappleState::Grappling => GrappleState::Idle,
        }
    }
}

/// What aiming hooked: the hit point, the entity the ray hit, and the marker
/// entity drawn at the point.
#[derive(Clone, Copy, Debug, PartialEq, Eq, Structural)]
pub struct TargetPos {
    /// The point of impact, in milliunits.
    pub point: Vec2i,
    /// The entity the target hangs on; touching it ends the pull.
    pub attached: u64,
    /// The marker entity drawn at the point, despawned with the target.
    pub marker: u64,
}

/// The whole state of the grappling hook.
#[derive(Clone, Debug, PartialEq, Eq)]
pub struct Grapple {
    pub state: GrappleState,
    /// The aimed target; always present while grappling.
    pub target: Option<TargetPos>,
    /// Positions of the guideline dots drawn between player and target
    /// while aiming, in milliunits.
    pub guideline: Vec<Vec2i>,
}

impl Grapple {
    /// Grappling always has a target to pull toward.
    pub open spec fn wf(self) -> bool {
        self.state is Grappling ==> self.target is Some
    }

    /// A fresh hook: idle, nothing aimed, no guideline.
    pub fn new() -> (g: Grapple)
        ensures
            g.wf(),
            g.state is Idle,
            g.target is None,
            g.guideline@ =~= Seq::<Vec2i>::empty(),
    {
        Grapple { state: GrappleState::Idle, target: None, guideline: Vec::new() }
    }
}

/// One idle tick: the hook starts aiming exactly when the grapple action was
/// just pressed and not released again within the same tick. A press
/// released in the same tick stays idle.
pub fn idle(grapple: &mut Grapple, just_pressed: bool, just_released: bool)
    requires
        old(grapple).wf(),
        old(grapple).state is Idle,
    ensures
        final(grapple).wf(),
        final(grapple).state == if just_pressed && !just_released {
            GrappleState::Aiming
        } else {
            GrappleState::Idle
        },
        final(grapple).target == old(grapple).target,
        final(grapple).guideline == old(grapple).guideline,
{
    if just_pressed && !just_released {
        grapple.state = GrappleState::Aiming;
    }
}

/// One aiming tick's transition: releasing the grapple action starts the
/// pull when something is hooked; a release with nothing hooked ends the
/// attempt. Leaving the aiming state takes the guideline down.
pub fn aim(grapple: &mut Grapple, just_released: bool)
    requires
        old(grapple).wf(),
        old(grapple).state is Aiming,
    ensures
        final(grapple).wf(),
        final(grapple).state == if !just_released {
            GrappleState::Aiming
        } else if old(grapple).target is Some {
            GrappleState::Grappling
        } else {
            GrappleState::Idle
        },
        final(grapple).target == old(grapple).target,
        just_released ==> final(grapple).guideline@ =~= Seq::<Vec2i>::empty(),
        !just_released ==> final(grapple).guideline == old(grapple).guideline,
{
    if just_released {
        if grapple.target.is_some() {
            grapple.state = GrappleState::Grappling;
        } else {
            grapple.state = GrappleState::Idle;
        }
        grapple.guideline = Vec::new();
    }
}

/// One aiming tick's raycast result: a hit replaces the target (the old
/// marker is despawned with it) with a fresh marker entity at the hit point;
/// a miss — the ray hit nothing, or the cursor left the window — clears the
/// target.
pub fn aim_marker(grapple: &mut Grapple, hit: Option<(Vec2i, u64)>, marker: u64)
    requires
        old(grapple).wf(),
        old(grapple).state is Aiming,
    ensures
        final(grapple).wf(),
        final(grapple).state == old(grapple).state,
        final(grapple).guideline == old(grapple).guideline,
        final(grapple).target == match hit {
            Some((point, attached)) => Some(TargetPos { point, attached, marker }),
            None => None::<TargetPos>,
        },
{
    match hit {
        Some((point, attached)) => {
            grapple.target = Some(TargetPos { point, attached, marker });
        }
        None => {
            grapple.target = None;
        }
    }
}

/// One grappling tick's restart: pressing the grapple action again goes back
/// to aiming without passing through idle. Leaving the grappling state
/// destroys the target and its marker.
pub fn grapple(grapple: &mut Grapple, just_pressed: bool)
    requires
        old(grapple).wf(),
        old(grapple).state is Grappling,
    ensures
        final(grapple).wf(),
        final(grapple).state == if just_pressed {
            GrappleState::Aiming
        } else {
            GrappleState::Grappling
        },
        just_pressed ==> final(grapple).target is None,
        !just_pressed ==> final(grapple).target == old(grapple).target,
        final(grapple).guideline == old(grapple).guideline,
{
    if just_pressed {
        grapple.state = GrappleState::Aiming;
        grapple.target = None;
    }
}

/// The pull ends when the player's collision list for the tick holds the
/// entity the target hangs on: the hook goes idle and the target and its
/// marker are destroyed.
pub fn should_grapple_end(grapple: &mut Grapple, collisions: &Vec<u64>)
    requires
        old(grapple).wf(),
        old(grapple).state is Grappling,
    ensures
        final(grapple).wf(),
        final(grapple).state == if collisions@.contains(old(grapple).target.unwrap().attached) {
            GrappleState::Idle
        } else {
            GrappleState::Grappling
        },
        collisions@.contains(old(grapple).target.unwrap().attached)
            ==> final(grapple).target is None,
        !collisions@.contains(old(grapple).target.unwrap().attached)
            ==> final(grapple).target == old(grapple).target,
        final(grapple).guideline == old(grapple).guideline,
{
    let attached = match &grapple.target {
        Some(t) => t.attached,
        None => { return; }
    };
    if crate::collect_coin::contains_entity(collisions, attached) {
        grapple.state = GrappleState::Idle;
        grapple.target = None;
    }
}

/// Any action other than the grapple ends the pull: the hook goes idle and
/// the target and its marker are destroyed.
pub fn end_grapple_on_other_input(grapple: &mut Grapple, other_action_pressed: bool)
    requires
        old(grapple).wf(),
        old(grapple).state is Grappling,
    ensures
        final(grapple).wf(),
        final(grapple).state == if other_action_pressed {
            GrappleState::Idle
        } else {
            GrappleState::Grappling
        },
        other_action_pressed ==> final(grapple).target is None,
        !other_action_pressed ==> final(grapple).target == old(grapple).target,
        final(grapple).guideline == old(grapple).guideline,
{
    if other_action_pressed {
        grapple.state = GrappleState::Idle;
        grapple.target = None;
    }
}

/// Resets the hook when the in-game session ends: idle, no target, no
/// guideline.
pub fn cleanup(grapple: &mut Grapple)
    ensures
        final(grapple).wf(),
        final(grapple).state is Idle,
        final(grapple).target is None,
        final(grapple).guideline@ =~= Seq::<Vec2i>::empty(),
{
    grapple.state = GrappleState::Idle;
    grapple.target = None;
    grapple.guideline = Vec::new();
}

/// The x-component of the unit vector (in milliunits) from the origin
/// toward `(dx, dy)`; zero when there is no direction.
pub open spec fn normalized_x(dx: int, dy: int) -> int {
    let len = isqrt_spec((dx * dx + dy * dy) as nat);
    if len == 0 {
        0
    } else {
        div_trunc(dx * 1000, len as int)
    }
}

/// The y-component of the unit vector (in milliunits) from the origin
/// toward `(dx, dy)`; zero when there is no direction.
pub open spec fn normalized_y(dx: int, dy: int) -> int {
    let len = isqrt_spec((dx * dx + dy * dy) as nat);
    if len == 0 {
        0
    } else {
        div_trunc(dy * 1000, len as int)
    }
}

/// The unit vector (in milliunits) pointing from `from` toward `to`: each
/// component is the offset scaled by 1000 and divided by the offset's
/// length. Both components stay within one unit. When the points coincide
/// there is no direction and the zero vector comes back.
pub fn normalize_dir(from: Vec2i, to: Vec2i) -> (d: Vec2i)
    requires
        crate::in_world(from.x),
        crate::in_world(from.y),
        crate::in_world(to.x),
        crate::in_world(to.y),
    ensures
        d.x == normalized_x(to.x - from.x, to.y - from.y),
        d.y == normalized_y(to.x - from.x, to.y - from.y),
        -1000 <= d.x <= 1000,
        -1000 <= d.y <= 1000,
{
    let dx = to.x - from.x;
    let dy = to.y - from.y;
    proof {
        assert(dx * dx + dy * dy <= 8_000_000_000_000_000_000
            && dx * dx <= dx * dx + dy * dy && dy * dy <= dx * dx + dy * dy)
            by (nonlinear_arith)
            requires
                -2_000_000_000 <= dx <= 2_000_000_000,
                -2_000_000_000 <= dy <= 2_000_000_000;
    }
    let len = isqrt((dx * dx + dy * dy) as u64);
    if len == 0 {
        Vec2i::new(0, 0)
    } else {
        proof {
            let n = dx * dx + dy * dy;
            assert(-len <= dx <= len && -len <= dy <= len) by (nonlinear_arith)
                requires
                    dx * dx <= n,
                    dy * dy <= n,
                    n < (len + 1) * (len + 1),
                    len >= 0;
            crate::math::lemma_div_trunc_bound(dx * 1000, len as int, 1000);
            crate::math::lemma_div_trunc_bound(dy * 1000, len as int, 1000);
        }
        let nx = div_trunc_i64(dx * 1000, len as i64);
        let ny = div_trunc_i64(dy * 1000, len as i64);
        Vec2i::new(nx, ny)
    }
}

/// One grappling tick's pull: the unit direction from the player to the
/// target, scaled by the pull strength, wholly replaces the player's
/// intended translation, and the sprite faces the pull.
pub fn manage_grapple(grapple: &Grapple, player: &mut Player)
    requires
        grapple.wf(),
        grapple.state is Grappling,
        old(player).wf(),
        crate::in_world(old(player).position.x),
        crate::in_world(old(player).position.y),
        crate::in_world(grapple.target.unwrap().point.x),
        crate::in_world(grapple.target.unwrap().point.y),
    ensures
        final(player).wf(),
        final(player).flip_x == (normalized_x(
            grapple.target.unwrap().point.x - old(player).position.x,
            grapple.target.unwrap().point.y - old(player).position.y) < 0),
        final(player).translation.x == normalized_x(
            grapple.target.unwrap().point.x - old(player).position.x,
            grapple.target.unwrap().point.y - old(player).position.y) * crate::PULL_STRENGTH,
        final(player).translation.y == normalized_y(
            grapple.target.unwrap().point.x - old(player).position.x,
            grapple.target.unwrap().point.y - old(player).position.y) * crate::PULL_STRENGTH,
        final(player).position == old(player).position,
        final(player).health == old(player).health,
        final(player).coins == old(player).coins,
        final(player).character == old(player).character,
        final(player).jump == old(player).jump,
        final(player).entity == old(player).entity,
        final(player).animating == old(player).animating,
{
    let target_point = match &grapple.target {
        Some(t) => t.point,
        None => { return; }
    };
    let direction = normalize_dir(player.position, target_point);
    player.flip_x = direction.x < 0;
    add_grapple_force(player, direction);
}

/// The straight-line distance from `from` to `to`, in milliunits (rounded
/// down).
pub open spec fn distance_spec(from: Vec2i, to: Vec2i) -> int {
    isqrt_spec(((to.x - from.x) * (to.x - from.x)
        + (to.y - from.y) * (to.y - from.y)) as nat) as int
}

/// How many guideline dots fit between `from` and `to` at the configured
/// spacing.
pub open spec fn guideline_count(from: Vec2i, to: Vec2i) -> int {
    distance_spec(from, to) / (crate::GUIDELINE_DISTANCE as int)
}

/// The x-offset between two neighboring guideline dots, in milliunits.
pub open spec fn guideline_step_x(from: Vec2i, to: Vec2i) -> int {
    if distance_spec(from, to) == 0 {
        0
    } else {
        div_trunc((to.x - from.x) * (crate::GUIDELINE_DISTANCE as int), distance_spec(from, to))
    }
}

/// The y-offset between two neighboring guideline dots, in milliunits.
pub open spec fn guideline_step_y(from: Vec2i, to: Vec2i) -> int {
    if distance_spec(from, to) == 0 {
        0
    } else {
        div_trunc((to.y - from.y) * (crate::GUIDELINE_DISTANCE as int), distance_spec(from, to))
    }
}

/// The dots of the aim guideline: evenly spaced positions from `from` toward
/// `to`, one per full spacing interval of the distance, starting at `from`
/// itself.
pub fn guideline_points(from: Vec2i, to: Vec2i) -> (dots: Vec<Vec2i>)
    requires
        crate::in_world(from.x),
        crate::in_world(from.y),
        crate::in_world(to.x),
        crate::in_world(to.y),
    ensures
        dots@.len() == guideline_count(from, to),
        forall|k: int| 0 <= k < dots@.len() ==> #[trigger] dots@[k].x
            == from.x + k * guideline_step_x(from, to),
        forall|k: int| 0 <= k < dots@.len() ==> #[trigger] dots@[k].y
            == from.y + k * guideline_step_y(from, to),
{
    let dx = to.x - from.x;
    let dy = to.y - from.y;
    proof {
        assert(dx * dx + dy * dy <= 8_000_000_000_000_000_000
            && dx * dx <= dx * dx + dy * dy && dy * dy <= dx * dx + dy * dy)
            by (nonlinear_arith)
            requires
                -2_000_000_000 <= dx <= 2_000_000_000,
                -2_000_000_000 <= dy <= 2_000_000_000;
    }
    let len = isqrt((dx * dx + dy * dy) as u64);
    let n = len / 50_000;
    let mut dots: Vec<Vec2i> = Vec::new();
    if n == 0 {
        return dots;
    }
    proof {
        assert(-len <= dx <= len && -len <= dy <= len) by (nonlinear_arith)
            requires
                dx * dx <= dx * dx + dy * dy,
                dy * dy <= dx * dx + dy * dy,
                dx * dx + dy * dy < (len + 1) * (len + 1),
                len >= 0;
        crate::math::lemma_div_trunc_bound(dx * 50_000, len as int, 50_000);
        crate::math::lemma_div_trunc_bound(dy * 50_000, len as int, 50_000);
    }
    let sx = div_trunc_i64(dx * 50_000, len as i64);
    let sy = div_trunc_i64(dy * 50_000, len as i64);
    let mut i: u64 = 0;
    while i < n
        invariant
            0 <= i <= n,
            n <= 60_000,
            -50_000 <= sx <= 50_000,
            -50_000 <= sy <= 50_000,
            crate::in_world(from.x),
            crate::in_world(from.y),
            dots@.len() == i,
            forall|k: int| 0 <= k < i ==> #[trigger] dots@[k].x == from.x + k * sx,
            forall|k: int| 0 <= k < i ==> #[trigger] dots@[k].y == from.y + k * sy,
        decreases n - i,
    {
        proof {
            assert(-3_000_000_000 <= i * sx <= 3_000_000_000
                && -3_000_000_000 <= i * sy <= 3_000_000_000) by (nonlinear_arith)
                requires
                    0 <= i <= 60_000,
                    -50_000 <= sx <= 50_000,
                    -50_000 <= sy <= 50_000;
        }
        dots.push(Vec2i::new(from.x + (i as i64) * sx, from.y + (i as i64) * sy));
        i = i + 1;
    }
    dots
}

/// One aiming tick's guideline rebuild: with a target hooked, the dots run
/// from the player toward the target point; with nothing hooked there is no
/// guideline.
pub fn aim_guideline(grapple: &mut Grapple, player_pos: Vec2i)
    requires
        old(grapple).wf(),
        old(grapple).state is Aiming,
        crate::in_world(player_pos.x),
        crate::in_world(player_pos.y),
        old(grapple).target matches Some(t)
            ==> crate::in_world(t.point.x) && crate::in_world(t.point.y),
    ensures
        final(grapple).wf(),
        final(grapple).state == old(grapple).state,
        final(grapple).target == old(grapple).target,
        old(grapple).target is None ==> final(grapple).guideline@ =~= Seq::<Vec2i>::empty(),
        old(grapple).target matches Some(t) ==> {
            &&& final(grapple).guideline@.len() == guideline_count(player_pos, t.point)
            &&& forall|k: int| 0 <= k < final(grapple).guideline@.len()
                ==> #[trigger] final(grapple).guideline@[k].x
                    == player_pos.x + k * guideline_step_x(player_pos, t.point)
            &&& forall|k: int| 0 <= k < final(grapple).guideline@.len()
                ==> #[trigger] final(grapple).guideline@[k].y
                    == player_pos.y + k * guideline_step_y(player_pos, t.point)
        },
{
    let target_point = match &grapple.target {
        Some(t) => Some(t.point),
        None => None,
    };
    match target_point {
        Some(point) => {
            grapple.guideline = guideline_points(player_pos, point);
        }
        None => {
            grapple.guideline = Vec::new();
        }
    }
}

/// The largest ray parameter an axis allows before the ray leaves the
/// window along that axis, in milliunits; an axis the ray runs parallel to
/// allows anything.
pub open spec fn edge_distance_axis(p: int, size: int, d: int) -> int {
    if d > 0 {
        div_trunc((size - p) * 1000, d)
    } else if d < 0 {
        div_trunc(p * 1000, -d)
    } else {
        RAY_LIMIT as int
    }
}

/// A ray parameter past any window edge.
pub const RAY_LIMIT: i64 = 3_000_000_000_000;

/// The distance from a point inside the window to the window's edge along
/// `direction` (a unit vector in milliunits): the smaller of the two
/// per-axis exit parameters.
pub fn get_distance_to_window_edge(char_pos: Vec2i, window_size: Vec2i, direction: Vec2i)
    -> (r: i64)
    requires
        0 <= char_pos.x <= window_size.x,
        0 <= char_pos.y <= window_size.y,
        crate::in_world(window_size.x),
        crate::in_world(window_size.y),
        -2000 <= direction.x <= 2000,
        -2000 <= direction.y <= 2000,
    ensures
        r == if edge_distance_axis(char_pos.x as int, window_size.x as int, direction.x as int)
            <= edge_distance_axis(char_pos.y as int, window_size.y as int, direction.y as int) {
            edge_distance_axis(char_pos.x as int, window_size.x as int, direction.x as int)
        } else {
            edge_distance_axis(char_pos.y as int, window_size.y as int, direction.y as int)
        },
{
    let tx = edge_distance_axis_exec(char_pos.x, window_size.x, direction.x);
    let ty = edge_distance_axis_exec(char_pos.y, window_size.y, direction.y);
    if tx <= ty {
        tx
    } else {
        ty
    }
}

/// One axis of the window-edge distance.
fn edge_distance_axis_exec(p: i64, size: i64, d: i64) -> (r: i64)
    requires
        0 <= p <= size,
        crate::in_world(size),
        -2000 <= d <= 2000,
    ensures
        r == edge_distance_axis(p as int, size as int, d as int),
{
    if d > 0 {
        div_trunc_i64((size - p) * 1000, d)
    } else if d < 0 {
        div_trunc_i64(p * 1000, -d)
    } else {
        RAY_LIMIT
    }
}

/// What a tick of aiming asks the physics adapter: a ray from the player
/// toward the cursor, no longer than the window allows.
#[derive(Clone, Copy, Debug, PartialEq, Eq, Structural)]
pub struct RayQuery {
    /// Start of the ray: the player's position, in milliunits.
    pub origin: Vec2i,
    /// Unit direction (in milliunits) from the player toward the cursor.
    pub direction: Vec2i,
    /// Longest admissible hit parameter, in milliunits.
    pub max_distance: i64,
}

/// Builds the aim ray for one tick: from the player toward the world-space
/// cursor, capped at the window edge. With the cursor outside the window
/// (`None`), or resting exactly on the player, there is no ray and the tick
/// aims at nothing.
pub fn cast_grapple_ray(
    player_pos: Vec2i,
    cursor_world: Option<Vec2i>,
    player_in_window: Vec2i,
    window_size: Vec2i,
) -> (q: Option<RayQuery>)
    requires
        crate::in_world(player_pos.x),
        crate::in_world(player_pos.y),
        cursor_world matches Some(c) ==> crate::in_world(c.x) && crate::in_world(c.y),
        0 <= player_in_window.x <= window_size.x,
        0 <= player_in_window.y <= window_size.y,
        crate::in_world(window_size.x),
        crate::in_world(window_size.y),
    ensures
        cursor_world is None ==> q is None,
        cursor_world matches Some(c) ==> {
            let nx = normalized_x(c.x - player_pos.x, c.y - player_pos.y);
            let ny = normalized_y(c.x - player_pos.x, c.y - player_pos.y);
            if nx == 0 && ny == 0 {
                q is None
            } else {
                q matches Some(ray)
                    && ray.origin == player_pos
                    && ray.direction.x == nx
                    && ray.direction.y == ny
                    && ray.max_distance == if edge_distance_axis(
                        player_in_window.x as int, window_size.x as int, nx)
                        <= edge_distance_axis(player_in_window.y as int, window_size.y as int, ny) {
                        edge_distance_axis(player_in_window.x as int, window_size.x as int, nx)
                    } else {
                        edge_distance_axis(player_in_window.y as int, window_size.y as int, ny)
                    }
            }
        },
{
    let cursor = match cursor_world {
        Some(c) => c,
        None => { return None; }
    };
    let direction = normalize_dir(player_pos, cursor);
    if direction.x == 0 && direction.y == 0 {
        return None;
    }
    let max_distance = get_distance_to_window_edge(player_in_window, window_size, direction);
    Some(RayQuery { origin: player_pos, direction, max_distance })
}

} // verus!
