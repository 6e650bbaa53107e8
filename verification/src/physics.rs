//! World data: colliders, interaction zones, the physics store, and the
//! rectangle-overlap test that every collision check goes through.
//!
//! Positions handed to the overlap tests are whole world pixels (the image
//! of the sub-pixel coordinates under [`crate::num::px`]); collider
//! rectangles are stored in whole pixels as loaded from the level.

use vstd::prelude::*;

use crate::enemy::{EnemiesState, Enemy};
use crate::num::{px, sat64, tdiv1000, SUBPIXELS};
use crate::num::{add_scaled, sat_add, sat_mul, to_px};
use crate::player::{player_movement, player_movement_spec, PlayerState, PlayerStateMachine};

verus! {

/// Greatest intentional horizontal speed of the player, sub-pixels per second.
pub const MAX_SPEED: i64 = 150_000;

/// Horizontal friction on the player's intentional speed, sub-pixels per
/// second squared.
pub const FRICTION: i64 = 500_000;

/// Below this intentional speed (sub-pixels per second) friction snaps the
/// player to a standstill when no direction is held.
pub const MIN_FRICTION_SNAP: i64 = 10_000;

/// Horizontal acceleration from held input, sub-pixels per second squared.
pub const ACCEL: i64 = 1_000_000;

/// Downward acceleration, sub-pixels per second squared.
pub const GRAVITY: i64 = 800_000;

/// Grace period after leaving the ground during which a jump still fires,
/// milliseconds.
pub const COYOTE_TIME: i64 = 100;

/// Grace period during which an early jump press is remembered, milliseconds.
pub const JUMP_BUFFER_TIME: i64 = 100;

/// Horizontal impulse of a wall jump, sub-pixels per second.
pub const WALL_JUMP_FORCE: i64 = 300_000;

/// Upward impulse of a jump, sub-pixels per second.
pub const JUMP_FORCE: i64 = 350_000;

/// Greatest fall speed while sliding down a wall, sub-pixels per second.
pub const SLIDE_MAX_FALL_SPEED: i64 = 100_000;

/// Patrol speed of an enemy, sub-pixels per second.
pub const ENEMY_PATROL_SPEED: i64 = 50_000;

/// A plane vector in sub-pixel units.
#[derive(Clone, Copy, PartialEq, Eq, Structural, Debug)]
pub struct Vec2 {
    pub x: i64,
    pub y: i64,
}

/// An axis-aligned rectangle in whole world pixels. Used both for solid
/// terrain and, as a body's `hitbox`/`collider` field, for the offset and
/// size of its collision box.
#[derive(Default, Clone, PartialEq, Eq, Structural, Debug)]
pub struct Collider {
    pub x: i32,
    pub y: i32,
    pub w: u32,
    pub h: u32,
}

/// What touching an interaction zone does.
#[derive(Clone, Debug)]
pub enum Interactions {
    /// Map path and spawn number to respawn at.
    ChangeMap(String, u32),
    Talk(u32),
}

/// A trigger zone of the level, with the per-frame flag that says whether
/// the player currently stands in it.
#[derive(Clone, Debug)]
pub struct Interactable {
    pub collider: Collider,
    pub interaction: Interactions,
    pub is_in_collider: bool,
}

/// The level's static physics content, rebuilt wholesale on a map switch.
#[derive(Clone)]
pub struct PhysicsState {
    pub colliders: Vec<Collider>,
    pub interactables: Vec<Interactable>,
}

impl Default for PhysicsState {
    /// An empty world: no terrain, no interaction zones.
    fn default() -> (s: Self)
        ensures
            s.colliders@.len() == 0,
            s.interactables@.len() == 0,
    {
        PhysicsState { colliders: Vec::new(), interactables: Vec::new() }
    }
}

/// Half-open rectangle overlap: rectangle 1 at `(x1, y1)` sized `w1 x h1`
/// shares area with rectangle 2 at `(x2, y2)` sized `w2 x h2`.
pub open spec fn rects_overlap(
    x1: int,
    y1: int,
    w1: int,
    h1: int,
    x2: int,
    y2: int,
    w2: int,
    h2: int,
) -> bool {
    x1 < x2 + w2 && x1 + w1 > x2 && y1 + h1 > y2 && y1 < y2 + h2
}

/// Rectangle-vs-rectangle overlap test on whole-pixel coordinates.
pub fn is_colliding(
    x1: i32,
    y1: i32,
    w1: i32,
    h1: i32,
    x2: i32,
    y2: i32,
    w2: i32,
    h2: i32,
) -> (r: bool)
    ensures
        r == rects_overlap(
            x1 as int,
            y1 as int,
            w1 as int,
            h1 as int,
            x2 as int,
            y2 as int,
            w2 as int,
            h2 as int,
        ),
{
    return (x1 as i64) < (x2 as i64) + (w2 as i64) && (x1 as i64) + (w1 as i64) > (x2 as i64)
        && (y1 as i64) + (h1 as i64) > (y2 as i64) && (y1 as i64) < (y2 as i64) + (h2 as i64);
}

/// The box at `(x1, y1)` sized `w1 x h1` (whole pixels) overlaps the
/// collider `c`.
pub open spec fn box_hits(x1: int, y1: int, w1: int, h1: int, c: Collider) -> bool {
    rects_overlap(x1, y1, w1, h1, c.x as int, c.y as int, c.w as int, c.h as int)
}

/// Overlap test of a body box against one collider, in whole pixels.
pub(crate) fn rect_hit(x1: i64, y1: i64, w1: i64, h1: i64, c: &Collider) -> (r: bool)
    requires
        -0x1_0000_0000 <= x1 <= 0x1_0000_0000,
        -0x1_0000_0000 <= y1 <= 0x1_0000_0000,
        0 <= w1 <= 0x1_0000_0000,
        0 <= h1 <= 0x1_0000_0000,
    ensures
        r == box_hits(x1 as int, y1 as int, w1 as int, h1 as int, *c),
{
    return x1 < (c.x as i64) + (c.w as i64) && x1 + w1 > (c.x as i64) && y1 + h1 > (c.y as i64)
        && y1 < (c.y as i64) + (c.h as i64);
}

/// What one resolution pass found: whether the X-move and the Y-move are
/// blocked, and the flags derived along the way. `falling` starts true and
/// is cleared by any Y-hit; `grounded` is set by a Y-hit whose attempted
/// box sits at or below the current one; `sliding` is set by an X-hit seen
/// while no earlier collider of the pass had grounded the body.
pub struct HitScan {
    pub hit_x: bool,
    pub hit_y: bool,
    pub grounded: bool,
    pub sliding: bool,
    pub falling: bool,
}

/// The scan's starting point, before any collider is looked at.
pub open spec fn scan_start() -> HitScan {
    HitScan { hit_x: false, hit_y: false, grounded: false, sliding: false, falling: true }
}

/// One collider folded into the player's scan. The X-test uses the
/// attempted X box against the current Y; the Y-test the current X against
/// the attempted Y (axis separation); both in whole pixels.
pub open spec fn scan_step(
    acc: HitScan,
    c: Collider,
    ox_px: int,
    oy_px: int,
    x_px: int,
    y_px: int,
    ow: int,
    oh: int,
) -> HitScan {
    let after_x = if box_hits(ox_px, y_px, ow, oh, c) {
        HitScan {
            hit_x: true,
            sliding: if !acc.grounded {
                true
            } else {
                acc.sliding
            },
            ..acc
        }
    } else {
        acc
    };
    if box_hits(x_px, oy_px, ow, oh, c) {
        HitScan {
            hit_y: true,
            falling: false,
            grounded: if oy_px >= y_px {
                true
            } else {
                after_x.grounded
            },
            ..after_x
        }
    } else {
        after_x
    }
}

/// The player's whole resolution scan over the collider store, in order.
pub open spec fn resolve_scan(
    cols: Seq<Collider>,
    ox_px: int,
    oy_px: int,
    x_px: int,
    y_px: int,
    ow: int,
    oh: int,
) -> HitScan
    decreases cols.len(),
{
    if cols.len() == 0 {
        scan_start()
    } else {
        scan_step(
            resolve_scan(cols.drop_last(), ox_px, oy_px, x_px, y_px, ow, oh),
            cols.last(),
            ox_px,
            oy_px,
            x_px,
            y_px,
            ow,
            oh,
        )
    }
}

/// The whole player frame: movement controller, integration of the
/// attempted position, axis-separated resolution against the collider
/// store, commit of the unblocked axes, the non-negative world clamp, and
/// the physics-driven mode change.
pub open spec fn player_physics_spec(p: PlayerState, cols: Seq<Collider>, dt: int) -> PlayerState {
    let m = player_movement_spec(p, dt);
    let nx = sat64(m.x + tdiv1000(m.added_velocity.x * dt));
    let vy_total = sat64(m.added_velocity.y + m.velocity.y);
    let ny = sat64(m.y + tdiv1000(vy_total * dt));
    let ox = sat64(nx + SUBPIXELS * m.hitbox.x);
    let oy = sat64(ny + SUBPIXELS * m.hitbox.y);
    let scan = resolve_scan(
        cols,
        px(ox),
        px(oy),
        px(m.x as int),
        px(m.y as int),
        m.hitbox.w as int,
        m.hitbox.h as int,
    );
    let x1 = if scan.hit_x {
        m.x as int
    } else {
        nx
    };
    let y1 = if scan.hit_y {
        m.y as int
    } else {
        ny
    };
    let x2 = if x1 < 0 {
        0
    } else {
        x1
    };
    let y2 = if y1 < 0 {
        0
    } else {
        y1
    };
    let st = if scan.falling && (m.state == PlayerStateMachine::Walking || m.state
        == PlayerStateMachine::Idling) {
        PlayerStateMachine::Falling
    } else if !scan.falling && m.state == PlayerStateMachine::Falling {
        PlayerStateMachine::Idling
    } else {
        m.state
    };
    PlayerState {
        x: x2 as i64,
        y: y2 as i64,
        velocity: Vec2 {
            x: if scan.hit_x {
                0
            } else {
                m.velocity.x
            },
            y: if scan.hit_y {
                0
            } else {
                m.velocity.y
            },
        },
        is_grounded: scan.grounded,
        is_sliding: scan.sliding,
        state: st,
        ..m
    }
}

/// Advances the player by one frame of `dt` milliseconds against the
/// level's colliders: runs the movement controller, then resolves the
/// attempted move axis by axis, commits what is unblocked, clamps the
/// position to the non-negative world, and derives the new mode.
pub fn player_physics(state: &PhysicsState, player: &mut PlayerState, dt: i64)
    requires
        0 <= dt,
    ensures
        *final(player) == player_physics_spec(*old(player), state.colliders@, dt as int),
{
    let ghost p0 = *player;
    let ghost dti = dt as int;
    player_movement(player, dt);
    let ghost m = player_movement_spec(p0, dti);

    let nx = add_scaled(player.x, player.added_velocity.x, dt);
    let vy_total = sat_add(player.added_velocity.y, player.velocity.y);
    let ny = add_scaled(player.y, vy_total, dt);

    let ox = sat_add(nx, SUBPIXELS * (player.hitbox.x as i64));
    let oy = sat_add(ny, SUBPIXELS * (player.hitbox.y as i64));
    let ox_px = to_px(ox);
    let oy_px = to_px(oy);
    let x_px = to_px(player.x);
    let y_px = to_px(player.y);
    let ow = player.hitbox.w as i64;
    let oh = player.hitbox.h as i64;

    player.is_grounded = false;
    player.is_sliding = false;
    let mut is_falling = true;
    let mut is_colliding_x = false;
    let mut is_colliding_y = false;

    let n = state.colliders.len();
    for i in 0..n
        invariant
            n == state.colliders@.len(),
            0 <= dt,
            ox_px == px(sat64(
                sat64(m.x + tdiv1000(m.added_velocity.x * dti)) + SUBPIXELS * m.hitbox.x,
            )),
            oy_px == px(sat64(
                sat64(m.y + tdiv1000(sat64(m.added_velocity.y + m.velocity.y) * dti)) + SUBPIXELS
                    * m.hitbox.y,
            )),
            x_px == px(m.x as int),
            y_px == px(m.y as int),
            ow == m.hitbox.w,
            oh == m.hitbox.h,
            nx as int == sat64(m.x + tdiv1000(m.added_velocity.x * dti)),
            ny as int == sat64(m.y + tdiv1000(sat64(m.added_velocity.y + m.velocity.y) * dti)),
            ({
                let scan = resolve_scan(
                    state.colliders@.take(i as int),
                    ox_px as int,
                    oy_px as int,
                    x_px as int,
                    y_px as int,
                    ow as int,
                    oh as int,
                );
                is_colliding_x == scan.hit_x && is_colliding_y == scan.hit_y
                    && player.is_grounded == scan.grounded && player.is_sliding == scan.sliding
                    && is_falling == scan.falling && *player == (PlayerState {
                    velocity: Vec2 {
                        x: if scan.hit_x {
                            0
                        } else {
                            m.velocity.x
                        },
                        y: if scan.hit_y {
                            0
                        } else {
                            m.velocity.y
                        },
                    },
                    is_grounded: scan.grounded,
                    is_sliding: scan.sliding,
                    ..m
                })
            }),
    {
        let c = &state.colliders[i];
        if rect_hit(ox_px, y_px, ow, oh, c) {
            is_colliding_x = true;
            player.velocity.x = 0;
            if !player.is_grounded {
                player.is_sliding = true;
            }
        }
        if rect_hit(x_px, oy_px, ow, oh, c) {
            is_colliding_y = true;
            player.velocity.y = 0;
            is_falling = false;
            if oy_px >= y_px {
                player.is_grounded = true;
            }
        }
        proof {
            assert(state.colliders@.take(i + 1).drop_last() =~= state.colliders@.take(i as int));
            assert(state.colliders@.take(i + 1).last() == state.colliders@[i as int]);
        }
    }
    proof {
        assert(state.colliders@.take(n as int) =~= state.colliders@);
    }

    if !is_colliding_x {
        player.x = nx;
    }
    if !is_colliding_y {
        player.y = ny;
    }

    if player.x < 0 {
        player.x = 0;
    }
    if player.y < 0 {
        player.y = 0;
    }

    if is_falling && (player.state == PlayerStateMachine::Walking || player.state
        == PlayerStateMachine::Idling) {
        player.state = PlayerStateMachine::Falling;
    }
    if !is_falling && player.state == PlayerStateMachine::Falling {
        player.state = PlayerStateMachine::Idling;
    }
}

/// The player's sprite box (position and size in whole pixels) overlaps
/// the collider `c`. The interaction scan tests the sprite box, not the
/// hitbox.
pub open spec fn player_overlaps(p: PlayerState, c: Collider) -> bool {
    box_hits(px(p.x as int), px(p.y as int), p.width as int, p.height as int, c)
}

/// Marks, on every interactable of the level, whether the player's sprite
/// box currently stands in it, and raises the player's `can_interact` flag
/// exactly when at least one is marked.
pub fn player_collision_interactables(physics: &mut PhysicsState, player: &mut PlayerState)
    ensures
        final(physics).colliders@ == old(physics).colliders@,
        final(physics).interactables@.len() == old(physics).interactables@.len(),
        forall|i: int|
            0 <= i < old(physics).interactables@.len() ==> final(physics).interactables@[i]
                == (Interactable {
                is_in_collider: player_overlaps(
                    *old(player),
                    old(physics).interactables@[i].collider,
                ),
                ..old(physics).interactables@[i]
            }),
        *final(player) == (PlayerState {
            can_interact: exists|i: int|
                0 <= i < old(physics).interactables@.len() && player_overlaps(
                    *old(player),
                    #[trigger] old(physics).interactables@[i].collider,
                ),
            ..*old(player)
        }),
{
    player.can_interact = false;
    let x_px = to_px(player.x);
    let y_px = to_px(player.y);
    let w = player.width as i64;
    let h = player.height as i64;
    let n = physics.interactables.len();
    for i in 0..n
        invariant
            n == physics.interactables@.len(),
            physics.colliders@ == old(physics).colliders@,
            x_px == px(old(player).x as int),
            y_px == px(old(player).y as int),
            w == old(player).width,
            h == old(player).height,
            forall|j: int|
                i <= j < n ==> physics.interactables@[j] == old(physics).interactables@[j],
            forall|j: int|
                0 <= j < i ==> physics.interactables@[j] == (Interactable {
                    is_in_collider: player_overlaps(
                        *old(player),
                        old(physics).interactables@[j].collider,
                    ),
                    ..old(physics).interactables@[j]
                }),
            player.can_interact == exists|j: int|
                0 <= j < i && player_overlaps(
                    *old(player),
                    #[trigger] old(physics).interactables@[j].collider,
                ),
            *player == (PlayerState { can_interact: player.can_interact, ..*old(player) }),
    {
        let hit = rect_hit(x_px, y_px, w, h, &physics.interactables[i].collider);
        if hit {
            physics.interactables[i].is_in_collider = true;
            player.can_interact = true;
        } else {
            physics.interactables[i].is_in_collider = false;
        }
    }
}

/// What an enemy's resolution pass found: blocked axes and the facing
/// after every horizontal hit reversed it once.
pub struct EnemyScan {
    pub hit_x: bool,
    pub hit_y: bool,
    pub dir: int,
}

/// One collider folded into an enemy's scan: a horizontal hit reverses the
/// facing, a vertical hit marks the Y-move blocked.
pub open spec fn enemy_scan_step(
    acc: EnemyScan,
    c: Collider,
    ox_px: int,
    oy_px: int,
    x_px: int,
    y_px: int,
    ow: int,
    oh: int,
) -> EnemyScan {
    let after_x = if box_hits(ox_px, y_px, ow, oh, c) {
        EnemyScan { hit_x: true, dir: -acc.dir, ..acc }
    } else {
        acc
    };
    if box_hits(x_px, oy_px, ow, oh, c) {
        EnemyScan { hit_y: true, ..after_x }
    } else {
        after_x
    }
}

/// An enemy's whole resolution scan over the collider store, in order,
/// starting from the facing `dir0`.
pub open spec fn enemy_resolve_scan(
    cols: Seq<Collider>,
    ox_px: int,
    oy_px: int,
    x_px: int,
    y_px: int,
    ow: int,
    oh: int,
    dir0: int,
) -> EnemyScan
    decreases cols.len(),
{
    if cols.len() == 0 {
        EnemyScan { hit_x: false, hit_y: false, dir: dir0 }
    } else {
        enemy_scan_step(
            enemy_resolve_scan(cols.drop_last(), ox_px, oy_px, x_px, y_px, ow, oh, dir0),
            cols.last(),
            ox_px,
            oy_px,
            x_px,
            y_px,
            ow,
            oh,
        )
    }
}

/// One enemy's frame: gravity, patrol speed from the facing, integration,
/// axis-separated resolution (a horizontal hit bounces the patrol), commit
/// of the unblocked axes, and the non-negative world clamp.
pub open spec fn enemy_step_spec(e: Enemy, cols: Seq<Collider>, dt: int) -> Enemy {
    let vy1 = sat64(e.velocity.y + tdiv1000(GRAVITY * dt));
    let vx1 = sat64(e.dir * ENEMY_PATROL_SPEED);
    let nx = sat64(e.x + tdiv1000(vx1 * dt));
    let ny = sat64(e.y + tdiv1000(vy1 * dt));
    let ox = sat64(nx + SUBPIXELS * e.collider.x);
    let oy = sat64(ny + SUBPIXELS * e.collider.y);
    let scan = enemy_resolve_scan(
        cols,
        px(ox),
        px(oy),
        px(e.x as int),
        px(e.y as int),
        e.collider.w as int,
        e.collider.h as int,
        e.dir as int,
    );
    let x1 = if scan.hit_x {
        e.x as int
    } else {
        nx
    };
    let y1 = if scan.hit_y {
        e.y as int
    } else {
        ny
    };
    let x2 = if x1 < 0 {
        0
    } else {
        x1
    };
    let y2 = if y1 < 0 {
        0
    } else {
        y1
    };
    Enemy {
        x: x2 as i64,
        y: y2 as i64,
        velocity: Vec2 {
            x: vx1 as i64,
            y: if scan.hit_y {
                0
            } else {
                vy1 as i64
            },
        },
        dir: scan.dir as i32,
        ..e
    }
}

/// Advances one enemy by one frame against the collider store.
fn enemy_step(cols: &Vec<Collider>, e: &mut Enemy, dt: i64)
    requires
        0 <= dt,
        old(e).dir != i32::MIN,
    ensures
        *final(e) == enemy_step_spec(*old(e), cols@, dt as int),
{
    let ghost e0 = *e;
    let ghost dti = dt as int;

    e.velocity.y = add_scaled(e.velocity.y, GRAVITY, dt);
    e.velocity.x = sat_mul(e.dir as i64, ENEMY_PATROL_SPEED);
    let ghost vy1 = sat64(e0.velocity.y + tdiv1000(GRAVITY * dti));
    let ghost vx1 = sat64(e0.dir * ENEMY_PATROL_SPEED);

    let nx = add_scaled(e.x, e.velocity.x, dt);
    let ny = add_scaled(e.y, e.velocity.y, dt);
    let ox = sat_add(nx, SUBPIXELS * (e.collider.x as i64));
    let oy = sat_add(ny, SUBPIXELS * (e.collider.y as i64));
    let ox_px = to_px(ox);
    let oy_px = to_px(oy);
    let x_px = to_px(e.x);
    let y_px = to_px(e.y);
    let ow = e.collider.w as i64;
    let oh = e.collider.h as i64;

    let mut is_colliding_x = false;
    let mut is_colliding_y = false;

    let n = cols.len();
    for i in 0..n
        invariant
            n == cols@.len(),
            e0.dir != i32::MIN,
            ox_px == px(sat64(
                sat64(e0.x + tdiv1000(sat64(e0.dir * ENEMY_PATROL_SPEED) * dti)) + SUBPIXELS
                    * e0.collider.x,
            )),
            oy_px == px(sat64(
                sat64(e0.y + tdiv1000(sat64(e0.velocity.y + tdiv1000(GRAVITY * dti)) * dti))
                    + SUBPIXELS * e0.collider.y,
            )),
            x_px == px(e0.x as int),
            y_px == px(e0.y as int),
            ow == e0.collider.w,
            oh == e0.collider.h,
            nx as int == sat64(e0.x + tdiv1000(sat64(e0.dir * ENEMY_PATROL_SPEED) * dti)),
            ny as int == sat64(
                e0.y + tdiv1000(sat64(e0.velocity.y + tdiv1000(GRAVITY * dti)) * dti),
            ),
            ({
                let scan = enemy_resolve_scan(
                    cols@.take(i as int),
                    ox_px as int,
                    oy_px as int,
                    x_px as int,
                    y_px as int,
                    ow as int,
                    oh as int,
                    e0.dir as int,
                );
                is_colliding_x == scan.hit_x && is_colliding_y == scan.hit_y && (scan.dir
                    == e0.dir as int || scan.dir == -(e0.dir as int)) && *e == (Enemy {
                    velocity: Vec2 {
                        x: sat64(e0.dir * ENEMY_PATROL_SPEED) as i64,
                        y: if scan.hit_y {
                            0
                        } else {
                            sat64(e0.velocity.y + tdiv1000(GRAVITY * dti)) as i64
                        },
                    },
                    dir: scan.dir as i32,
                    ..e0
                })
            }),
    {
        let ghost pre = enemy_resolve_scan(
            cols@.take(i as int),
            ox_px as int,
            oy_px as int,
            x_px as int,
            y_px as int,
            ow as int,
            oh as int,
            e0.dir as int,
        );
        let c = &cols[i];
        if rect_hit(ox_px, y_px, ow, oh, c) {
            is_colliding_x = true;
            e.dir = -e.dir;
        }
        if rect_hit(x_px, oy_px, ow, oh, c) {
            is_colliding_y = true;
            e.velocity.y = 0;
        }
        proof {
            assert(cols@.take(i + 1).drop_last() =~= cols@.take(i as int));
            assert(cols@.take(i + 1).last() == cols@[i as int]);
            assert(enemy_resolve_scan(
                cols@.take(i + 1),
                ox_px as int,
                oy_px as int,
                x_px as int,
                y_px as int,
                ow as int,
                oh as int,
                e0.dir as int,
            ) == enemy_scan_step(
                pre,
                cols@[i as int],
                ox_px as int,
                oy_px as int,
                x_px as int,
                y_px as int,
                ow as int,
                oh as int,
            ));
        }
    }
    proof {
        assert(cols@.take(n as int) =~= cols@);
    }

    if !is_colliding_x {
        e.x = nx;
    }
    if !is_colliding_y {
        e.y = ny;
    }

    if e.x < 0 {
        e.x = 0;
    }
    if e.y < 0 {
        e.y = 0;
    }
}

/// Advances every enemy by one frame of `dt` milliseconds, each resolved
/// independently against the same collider store. A facing of `i32::MIN`
/// is ruled out because the patrol bounce negates the facing, and that one
/// value has no negation; every real facing is -1 or 1.
pub fn enemies_physics(physics: &PhysicsState, enemies: &mut EnemiesState, dt: i64)
    requires
        0 <= dt,
        forall|j: int|
            0 <= j < old(enemies).enemies@.len() ==> old(enemies).enemies@[j].dir != i32::MIN,
    ensures
        final(enemies).enemies@.len() == old(enemies).enemies@.len(),
        forall|j: int|
            0 <= j < old(enemies).enemies@.len() ==> final(enemies).enemies@[j]
                == enemy_step_spec(old(enemies).enemies@[j], physics.colliders@, dt as int),
{
    let n = enemies.enemies.len();
    for i in 0..n
        invariant
            0 <= dt,
            n == enemies.enemies@.len(),
            n == old(enemies).enemies@.len(),
            forall|j: int|
                0 <= j < n ==> #[trigger] old(enemies).enemies@[j].dir != i32::MIN,
            forall|j: int| i <= j < n ==> enemies.enemies@[j] == old(enemies).enemies@[j],
            forall|j: int|
                0 <= j < i ==> enemies.enemies@[j] == enemy_step_spec(
                    old(enemies).enemies@[j],
                    physics.colliders@,
                    dt as int,
                ),
    {
        let e = &mut enemies.enemies[i];
        enemy_step(&physics.colliders, e, dt);
    }
}

} // verus!
