//! The properties the simulation promises beyond each function's own
//! contract: speed clamping, the friction standstill, grounding, coyote
//! time, and the enemy's patrol bounce. Each is proved once here, over the
//! same specification functions the executable code is proved against.

use vstd::prelude::*;

use crate::enemy::Enemy;
use crate::num::{px, sat64, tdiv1000, SUBPIXELS};
use crate::physics::{
    box_hits, enemy_resolve_scan, enemy_scan_step, enemy_step_spec, player_physics_spec,
    resolve_scan, Collider, ENEMY_PATROL_SPEED, GRAVITY, JUMP_FORCE, MAX_SPEED, MIN_FRICTION_SNAP,
};
use crate::player::{player_movement_spec, PlayerState, PlayerStateMachine};

verus! {

/// The two friction pushes of one frame move exactly
/// `500 * dt` sub-pixels per second, the accelerating push exactly
/// `1000 * dt`.
proof fn lemma_exact_pushes(dt: int)
    requires
        0 <= dt,
    ensures
        tdiv1000(1_000_000 * dt) == 1000 * dt,
        tdiv1000(500_000 * dt) == 500 * dt,
        tdiv1000(-500_000 * dt) == -(500 * dt),
{
    vstd::arithmetic::div_mod::lemma_div_multiples_vanish(1000 * dt, 1000);
    assert(1_000_000 * dt == 1000 * (1000 * dt));
    vstd::arithmetic::div_mod::lemma_div_multiples_vanish(500 * dt, 1000);
    assert(500_000 * dt == 1000 * (500 * dt));
}

/// Clamping: over a frame in which the player steers right (`wants_dir`
/// of 1, in a steering mode, not wall-sliding), an intentional speed
/// within `[-MAX_SPEED, MAX_SPEED]` stays within it — the acceleration
/// step clamps, and friction only ever brings the speed closer to rest.
/// Since the resolution pass never touches the intentional speed, the
/// bound holds at the end of the whole frame too, so it is preserved
/// across any run of such frames. Stated for frame times up to a billion
/// seconds: in frames longer than an eon the `i64` saturation of the
/// friction push takes over and the bound is not owed.
pub proof fn lemma_added_velocity_clamped(p: PlayerState, cols: Seq<Collider>, dt: int)
    requires
        0 <= dt <= 1_000_000_000_000,
        p.wants_dir == 1,
        p.state == PlayerStateMachine::Walking || p.state == PlayerStateMachine::Falling,
        !p.is_sliding,
        -MAX_SPEED <= p.added_velocity.x <= MAX_SPEED,
    ensures
        -MAX_SPEED <= player_movement_spec(p, dt).added_velocity.x <= MAX_SPEED,
        -MAX_SPEED <= player_physics_spec(p, cols, dt).added_velocity.x <= MAX_SPEED,
{
    lemma_exact_pushes(dt);
}

/// The state after running one frame per entry of `dts` through an empty
/// world, oldest frame first.
pub open spec fn run_free_frames(p: PlayerState, dts: Seq<int>) -> PlayerState
    decreases dts.len(),
{
    if dts.len() == 0 {
        p
    } else {
        player_physics_spec(run_free_frames(p, dts.drop_last()), Seq::<Collider>::empty(), dts.last())
    }
}

/// Clamping over repeated frames: however many frames of holding right
/// run through an empty world, and whatever each frame's elapsed time,
/// the intentional speed never leaves `[-MAX_SPEED, MAX_SPEED]`. The held
/// direction and the steering mode survive every frame (free fall only
/// turns walking into falling), so the one-frame bound carries through.
pub proof fn lemma_added_velocity_clamped_over_frames(p: PlayerState, dts: Seq<int>)
    requires
        forall|i: int| 0 <= i < dts.len() ==> 0 <= #[trigger] dts[i] <= 1_000_000_000_000,
        p.wants_dir == 1,
        p.state == PlayerStateMachine::Walking || p.state == PlayerStateMachine::Falling,
        !p.is_sliding,
        -MAX_SPEED <= p.added_velocity.x <= MAX_SPEED,
    ensures
        ({
            let q = run_free_frames(p, dts);
            &&& -MAX_SPEED <= q.added_velocity.x <= MAX_SPEED
            &&& q.wants_dir == 1
            &&& (q.state == PlayerStateMachine::Walking || q.state == PlayerStateMachine::Falling)
            &&& !q.is_sliding
        }),
    decreases dts.len(),
{
    if dts.len() > 0 {
        assert(forall|i: int|
            0 <= i < dts.drop_last().len() ==> 0 <= #[trigger] dts.drop_last()[i]
                <= 1_000_000_000_000);
        lemma_added_velocity_clamped_over_frames(p, dts.drop_last());
        let q0 = run_free_frames(p, dts.drop_last());
        lemma_added_velocity_clamped(q0, Seq::<Collider>::empty(), dts.last());
    }
}

/// Friction standstill: with no direction held and a small positive
/// intentional speed (below the snap threshold), one frame brings the
/// player to exactly zero, whatever the elapsed time (up to the same
/// billion-second frame bound as the clamping law).
pub proof fn lemma_friction_snaps_to_zero(p: PlayerState, dt: int)
    requires
        0 <= dt <= 1_000_000_000_000,
        p.wants_dir == 0,
        0 < p.added_velocity.x < MIN_FRICTION_SNAP,
    ensures
        player_movement_spec(p, dt).added_velocity.x == 0,
{
    lemma_exact_pushes(dt);
    assert(tdiv1000(0 * dt) == 0);
}

/// A collider that the attempted Y box hits keeps its marks through the
/// rest of the scan: the Y-move stays blocked, the body is not falling,
/// and, when the attempted box sits at or below the current one, it is
/// grounded.
proof fn lemma_scan_y_hit(
    cols: Seq<Collider>,
    ox_px: int,
    oy_px: int,
    x_px: int,
    y_px: int,
    ow: int,
    oh: int,
    k: int,
)
    requires
        0 <= k < cols.len(),
        box_hits(x_px, oy_px, ow, oh, cols[k]),
    ensures
        resolve_scan(cols, ox_px, oy_px, x_px, y_px, ow, oh).hit_y,
        !resolve_scan(cols, ox_px, oy_px, x_px, y_px, ow, oh).falling,
        oy_px >= y_px ==> resolve_scan(cols, ox_px, oy_px, x_px, y_px, ow, oh).grounded,
    decreases cols.len(),
{
    if k < cols.len() - 1 {
        lemma_scan_y_hit(cols.drop_last(), ox_px, oy_px, x_px, y_px, ow, oh, k);
        assert(cols.drop_last()[k] == cols[k]);
    }
}

/// The resolver invents nothing: a scan reports the X-move or the Y-move
/// blocked only when some collider actually overlaps the tested box, it
/// reports sliding only when the X-move is blocked, and it reports the
/// body grounded only when the Y-move is blocked by a surface at or below
/// the current box. In particular, a scan over an empty collider store
/// reports nothing at all.
pub proof fn lemma_scan_flags_come_from_hits(
    cols: Seq<Collider>,
    ox_px: int,
    oy_px: int,
    x_px: int,
    y_px: int,
    ow: int,
    oh: int,
)
    ensures
        ({
            let s = resolve_scan(cols, ox_px, oy_px, x_px, y_px, ow, oh);
            &&& (s.hit_x ==> exists|k: int|
                0 <= k < cols.len() && box_hits(ox_px, y_px, ow, oh, #[trigger] cols[k]))
            &&& (s.hit_y ==> exists|k: int|
                0 <= k < cols.len() && box_hits(x_px, oy_px, ow, oh, #[trigger] cols[k]))
            &&& (s.sliding ==> s.hit_x)
            &&& (s.grounded ==> s.hit_y && oy_px >= y_px)
        }),
    decreases cols.len(),
{
    if cols.len() > 0 {
        lemma_scan_flags_come_from_hits(cols.drop_last(), ox_px, oy_px, x_px, y_px, ow, oh);
        let prev = resolve_scan(cols.drop_last(), ox_px, oy_px, x_px, y_px, ow, oh);
        let last = cols.len() - 1;
        if prev.hit_x {
            let k = choose|k: int|
                0 <= k < cols.drop_last().len() && box_hits(
                    ox_px,
                    y_px,
                    ow,
                    oh,
                    #[trigger] cols.drop_last()[k],
                );
            assert(box_hits(ox_px, y_px, ow, oh, cols[k]));
        }
        if prev.hit_y {
            let k = choose|k: int|
                0 <= k < cols.drop_last().len() && box_hits(
                    x_px,
                    oy_px,
                    ow,
                    oh,
                    #[trigger] cols.drop_last()[k],
                );
            assert(box_hits(x_px, oy_px, ow, oh, cols[k]));
        }
        assert(cols[last] == cols.last());
    }
}

/// Grounding: when the frame's attempted vertical move runs the player's
/// box into some collider, with the attempted box at or below the current
/// one (a fall onto a floor, not a rise into a ceiling), the frame ends
/// grounded, with the vertical speed zeroed and the vertical position
/// exactly where it started.
pub proof fn lemma_grounding(p: PlayerState, cols: Seq<Collider>, dt: int, k: int)
    requires
        0 <= k < cols.len(),
        ({
            let m = player_movement_spec(p, dt);
            let vy_total = sat64(m.added_velocity.y + m.velocity.y);
            let ny = sat64(m.y + tdiv1000(vy_total * dt));
            let oy = sat64(ny + SUBPIXELS * m.hitbox.y);
            box_hits(px(m.x as int), px(oy), m.hitbox.w as int, m.hitbox.h as int, cols[k])
                && px(oy) >= px(m.y as int)
        }),
        player_movement_spec(p, dt).y >= 0,
    ensures
        player_physics_spec(p, cols, dt).is_grounded,
        player_physics_spec(p, cols, dt).velocity.y == 0,
        player_physics_spec(p, cols, dt).y == player_movement_spec(p, dt).y,
{
    let m = player_movement_spec(p, dt);
    let nx = sat64(m.x + tdiv1000(m.added_velocity.x * dt));
    let vy_total = sat64(m.added_velocity.y + m.velocity.y);
    let ny = sat64(m.y + tdiv1000(vy_total * dt));
    let ox = sat64(nx + SUBPIXELS * m.hitbox.x);
    let oy = sat64(ny + SUBPIXELS * m.hitbox.y);
    lemma_scan_y_hit(
        cols,
        px(ox),
        px(oy),
        px(m.x as int),
        px(m.y as int),
        m.hitbox.w as int,
        m.hitbox.h as int,
        k,
    );
}

/// Coyote time, first half: a grounded frame on which no jump fires (no
/// press, and no buffered press left) refills the coyote counter to its
/// full grace period.
pub proof fn lemma_grounded_refills_coyote(p: PlayerState, dt: int)
    requires
        0 <= dt,
        p.is_grounded,
        !p.wants_to_jump,
        p.jump_buffer_counter <= 0,
    ensures
        player_movement_spec(p, dt).coyote_time_counter == crate::physics::COYOTE_TIME,
{
}

/// Coyote time, second half: airborne with the coyote counter still to
/// spare, a jump press fires the jump — the full upward impulse, the
/// press consumed, both counters spent.
pub proof fn lemma_coyote_jump(p: PlayerState, dt: int)
    requires
        0 <= dt,
        !p.is_grounded,
        p.wants_to_jump,
        p.coyote_time_counter - dt > 0,
    ensures
        player_movement_spec(p, dt).velocity.y == -JUMP_FORCE,
        player_movement_spec(p, dt).coyote_time_counter == 0,
        player_movement_spec(p, dt).jump_buffer_counter == 0,
        !player_movement_spec(p, dt).wants_to_jump,
{
}

/// No jump after the coyote counter has expired: airborne, not sliding,
/// with the counter run out, a jump press changes nothing about the
/// vertical speed beyond gravity — a body that was falling keeps falling.
pub proof fn lemma_no_jump_after_coyote_expiry(p: PlayerState, dt: int)
    requires
        0 <= dt,
        !p.is_grounded,
        !p.is_sliding,
        p.wants_to_jump,
        p.coyote_time_counter - dt <= 0,
    ensures
        player_movement_spec(p, dt).velocity.y == sat64(p.velocity.y + tdiv1000(GRAVITY * dt)),
        p.velocity.y >= 0 ==> player_movement_spec(p, dt).velocity.y >= 0,
{
    assert(sat64(p.coyote_time_counter - dt) <= 0);
}

/// Enemy bounce: an enemy patrolling right whose attempted horizontal
/// move runs its box into the store's one collider turns around within
/// that same frame, and its committed horizontal position does not cross
/// into the collider: it stays exactly where it was.
pub proof fn lemma_enemy_bounce(e: Enemy, cols: Seq<Collider>, dt: int)
    requires
        cols.len() == 1,
        e.dir == 1,
        e.x >= 0,
        0 <= dt,
        ({
            let vx1 = sat64(e.dir * ENEMY_PATROL_SPEED);
            let nx = sat64(e.x + tdiv1000(vx1 * dt));
            let ox = sat64(nx + SUBPIXELS * e.collider.x);
            box_hits(px(ox), px(e.y as int), e.collider.w as int, e.collider.h as int, cols[0])
        }),
    ensures
        enemy_step_spec(e, cols, dt).dir == -1,
        enemy_step_spec(e, cols, dt).x == e.x,
{
    assert(cols.drop_last() =~= Seq::<Collider>::empty());
    assert(cols.last() == cols[0]);
    let vx1 = sat64(e.dir * ENEMY_PATROL_SPEED);
    let nx = sat64(e.x + tdiv1000(vx1 * dt));
    let ox = sat64(nx + SUBPIXELS * e.collider.x);
    let vy1 = sat64(e.velocity.y + tdiv1000(GRAVITY * dt));
    let ny = sat64(e.y + tdiv1000(vy1 * dt));
    let oy = sat64(ny + SUBPIXELS * e.collider.y);
    let scan = enemy_resolve_scan(
        cols,
        px(ox),
        px(oy),
        px(e.x as int),
        px(e.y as int),
        e.collider.w as int,
        e.collider.h as int,
        e.dir as int,
    );
    let base = enemy_resolve_scan(
        Seq::<Collider>::empty(),
        px(ox),
        px(oy),
        px(e.x as int),
        px(e.y as int),
        e.collider.w as int,
        e.collider.h as int,
        e.dir as int,
    );
    assert(base.dir == 1 && !base.hit_x && !base.hit_y);
    assert(scan == enemy_scan_step(
        base,
        cols[0],
        px(ox),
        px(oy),
        px(e.x as int),
        px(e.y as int),
        e.collider.w as int,
        e.collider.h as int,
    ));
    assert(scan.hit_x && scan.dir == -1);
}

} // verus!
