//! The player: its state record, the per-frame movement controller
//! (acceleration, gravity, coyote time, jump buffering, wall jump, slide
//! cap, friction), the intent step that turns held keys into desired
//! movement, spawn placement, and the interaction action.

use vstd::prelude::*;

use crate::loading::{LoadError, SpawnPoint};
use crate::num::{clamp_spec, sat64, tdiv1000, SUBPIXELS};
use crate::num::{add_scaled, clamp64, sat_mul, sat_sub};
use crate::physics::{box_hits, Collider, Interactable, Interactions, PhysicsState, Vec2};
use crate::physics::{
    ACCEL, COYOTE_TIME, FRICTION, GRAVITY, JUMP_BUFFER_TIME, JUMP_FORCE, MAX_SPEED,
    MIN_FRICTION_SNAP, SLIDE_MAX_FALL_SPEED, WALL_JUMP_FORCE,
};

verus! {

/// The player's discrete mode.
#[derive(Clone, PartialEq, Eq, Structural, Debug)]
pub enum PlayerStateMachine {
    Idling,
    Walking,
    Falling,
    Talking,
    Dying,
}

/// The player's whole per-frame state. Coordinates are sub-pixels, speeds
/// sub-pixels per second, the assist counters milliseconds.
#[derive(Clone)]
pub struct PlayerState {
    pub _player_sprite_path: &'static str,
    pub x: i64,
    pub y: i64,
    pub width: u32,
    pub height: u32,
    /// Offset (`x`, `y`, whole pixels from the sprite's top-left corner)
    /// and size (`w`, `h`) of the collision box.
    pub hitbox: Collider,
    /// Self-propelled horizontal speed (its `x`), decayed by friction.
    pub added_velocity: Vec2,
    /// Externally imposed speed; its `y` carries gravity and jumps.
    pub velocity: Vec2,
    /// Derived each frame from the held direction; not meaningful across
    /// frames.
    pub acceleration: Vec2,
    /// Desired horizontal direction this frame: -1, 0 or 1.
    pub wants_dir: i64,
    pub wants_to_jump: bool,
    pub wants_to_interact: bool,
    pub state: PlayerStateMachine,
    pub is_grounded: bool,
    pub is_sliding: bool,
    /// Milliseconds for which a past grounded frame still honors a jump.
    pub coyote_time_counter: i64,
    /// Milliseconds for which a past jump press is still honored.
    pub jump_buffer_counter: i64,
    pub can_interact: bool,
    pub spawn_point: u32,
    pub current_map: String,
}

impl PlayerState {
    /// A freshly spawned player at `(x, y)` sub-pixels: an 8 x 16 sprite
    /// with a matching hitbox, at rest, idling, with no map recorded yet.
    pub fn new(x: i64, y: i64) -> (p: PlayerState)
        ensures
            p == (PlayerState {
                _player_sprite_path: "res/player.png",
                x,
                y,
                width: 8,
                height: 16,
                hitbox: Collider { x: 0, y: 0, w: 8, h: 16 },
                added_velocity: Vec2 { x: 0, y: 0 },
                velocity: Vec2 { x: 0, y: 0 },
                acceleration: Vec2 { x: 0, y: 0 },
                wants_dir: 0,
                wants_to_jump: false,
                wants_to_interact: false,
                state: PlayerStateMachine::Idling,
                is_grounded: false,
                is_sliding: false,
                coyote_time_counter: 0,
                jump_buffer_counter: 0,
                can_interact: false,
                spawn_point: 0,
                current_map: p.current_map,
            }),
            p.current_map@ == Seq::<char>::empty(),
    {
        PlayerState {
            _player_sprite_path: "res/player.png",
            x,
            y,
            width: 8,
            height: 16,
            hitbox: Collider { x: 0, y: 0, w: 8, h: 16 },
            added_velocity: Vec2 { x: 0, y: 0 },
            velocity: Vec2 { x: 0, y: 0 },
            acceleration: Vec2 { x: 0, y: 0 },
            wants_dir: 0,
            wants_to_jump: false,
            wants_to_interact: false,
            state: PlayerStateMachine::Idling,
            is_grounded: false,
            is_sliding: false,
            coyote_time_counter: 0,
            jump_buffer_counter: 0,
            can_interact: false,
            spawn_point: 0,
            current_map: String::new(),
        }
    }
}

/// Step 1 of the movement controller: derive the frame's horizontal
/// acceleration from the desired direction, apply it to the intentional
/// speed while the mode lets the player steer (Walking or Falling), and
/// clamp that speed to `[-MAX_SPEED, MAX_SPEED]`.
pub open spec fn accel_stage(p: PlayerState, dt: int) -> PlayerState {
    let acc = sat64(p.wants_dir * ACCEL);
    let pushed = if p.state == PlayerStateMachine::Walking || p.state
        == PlayerStateMachine::Falling {
        sat64(p.added_velocity.x + tdiv1000(acc * dt))
    } else {
        p.added_velocity.x as int
    };
    let clamped = clamp_spec(pushed, -(MAX_SPEED as int), MAX_SPEED as int);
    PlayerState {
        acceleration: Vec2 { x: acc as i64, ..p.acceleration },
        added_velocity: Vec2 { x: clamped as i64, ..p.added_velocity },
        ..p
    }
}

/// Step 2: gravity pulls on the vertical speed, unconditionally.
pub open spec fn gravity_stage(p: PlayerState, dt: int) -> PlayerState {
    PlayerState {
        velocity: Vec2 { y: sat64(p.velocity.y + tdiv1000(GRAVITY * dt)) as i64, ..p.velocity },
        ..p
    }
}

/// Step 3: coyote time. A grounded frame refills the counter; an airborne
/// frame lets it run down (below zero it simply counts as expired).
pub open spec fn coyote_stage(p: PlayerState, dt: int) -> PlayerState {
    PlayerState {
        coyote_time_counter: if p.is_grounded {
            COYOTE_TIME
        } else {
            sat64(p.coyote_time_counter - dt) as i64
        },
        ..p
    }
}

/// Step 4: jump buffering. A jump press refills the counter; otherwise it
/// runs down.
pub open spec fn buffer_stage(p: PlayerState, dt: int) -> PlayerState {
    PlayerState {
        jump_buffer_counter: if p.wants_to_jump {
            JUMP_BUFFER_TIME
        } else {
            sat64(p.jump_buffer_counter - dt) as i64
        },
        ..p
    }
}

/// Step 5: the ground jump. With both counters alive it fires once:
/// upward impulse, press consumed, both counters zeroed.
pub open spec fn jump_stage(p: PlayerState) -> PlayerState {
    if p.jump_buffer_counter > 0 && p.coyote_time_counter > 0 {
        PlayerState {
            velocity: Vec2 { y: (-JUMP_FORCE) as i64, ..p.velocity },
            wants_to_jump: false,
            coyote_time_counter: 0,
            jump_buffer_counter: 0,
            ..p
        }
    } else {
        p
    }
}

/// Step 6: the wall jump, checked on its own after the ground jump. While
/// sliding with a live jump buffer it pushes away from the held direction
/// and upward; it does not clear the counters, so it can fire in the same
/// frame as the ground jump.
pub open spec fn wall_jump_stage(p: PlayerState) -> PlayerState {
    if p.jump_buffer_counter > 0 && p.is_sliding {
        PlayerState {
            added_velocity: Vec2 {
                x: sat64(p.wants_dir * -(WALL_JUMP_FORCE as int)) as i64,
                ..p.added_velocity
            },
            velocity: Vec2 { y: (-JUMP_FORCE) as i64, ..p.velocity },
            wants_to_jump: false,
            ..p
        }
    } else {
        p
    }
}

/// Step 7: while sliding down a wall the fall speed is capped.
pub open spec fn slide_cap_stage(p: PlayerState) -> PlayerState {
    if p.is_sliding && p.velocity.y > SLIDE_MAX_FALL_SPEED {
        PlayerState { velocity: Vec2 { y: SLIDE_MAX_FALL_SPEED, ..p.velocity }, ..p }
    } else {
        p
    }
}

/// Step 8: friction. A positive intentional speed is pushed down and, if
/// that flipped its sign, pushed straight back (the second test reads the
/// already-pushed value); a negative one is pushed up. Near zero with no
/// direction held, the speed snaps to exactly zero.
pub open spec fn friction_stage(p: PlayerState, dt: int) -> PlayerState {
    let a0 = p.added_velocity.x as int;
    let a1 = if a0 > 0 {
        sat64(a0 + tdiv1000(-(FRICTION as int) * dt))
    } else {
        a0
    };
    let a2 = if a1 < 0 {
        sat64(a1 + tdiv1000(FRICTION * dt))
    } else {
        a1
    };
    let a3 = if -(MIN_FRICTION_SNAP as int) < a2 && a2 < MIN_FRICTION_SNAP as int && p.wants_dir
        == 0 {
        0
    } else {
        a2
    };
    PlayerState { added_velocity: Vec2 { x: a3 as i64, ..p.added_velocity }, ..p }
}

/// The whole movement controller: steps 1 through 8 in order, over one
/// frame of `dt` milliseconds.
pub open spec fn player_movement_spec(p: PlayerState, dt: int) -> PlayerState {
    friction_stage(
        slide_cap_stage(
            wall_jump_stage(
                jump_stage(buffer_stage(coyote_stage(gravity_stage(accel_stage(p, dt), dt), dt), dt)),
            ),
        ),
        dt,
    )
}

/// Applies one frame of the movement controller to the player: intentional
/// speed, gravity, the two assist counters, jumps, the slide cap and
/// friction, exactly as [`player_movement_spec`] lays them out.
pub fn player_movement(player: &mut PlayerState, dt: i64)
    requires
        0 <= dt,
    ensures
        *final(player) == player_movement_spec(*old(player), dt as int),
{
    let ghost p0 = *player;
    let ghost dti = dt as int;

    // Step 1: steering.
    player.acceleration.x = sat_mul(player.wants_dir, ACCEL);
    if player.state == PlayerStateMachine::Walking || player.state == PlayerStateMachine::Falling {
        player.added_velocity.x = add_scaled(player.added_velocity.x, player.acceleration.x, dt);
    }
    player.added_velocity.x = clamp64(player.added_velocity.x, -MAX_SPEED, MAX_SPEED);
    assert(*player == accel_stage(p0, dti));
    let ghost p1 = accel_stage(p0, dti);

    // Step 2: gravity.
    player.velocity.y = add_scaled(player.velocity.y, GRAVITY, dt);
    assert(*player == gravity_stage(p1, dti));
    let ghost p2 = gravity_stage(p1, dti);

    // Step 3: coyote time.
    if player.is_grounded {
        player.coyote_time_counter = COYOTE_TIME;
    } else {
        player.coyote_time_counter = sat_sub(player.coyote_time_counter, dt);
    }
    assert(*player == coyote_stage(p2, dti));
    let ghost p3 = coyote_stage(p2, dti);

    // Step 4: jump buffering.
    if player.wants_to_jump {
        player.jump_buffer_counter = JUMP_BUFFER_TIME;
    } else {
        player.jump_buffer_counter = sat_sub(player.jump_buffer_counter, dt);
    }
    assert(*player == buffer_stage(p3, dti));
    let ghost p4 = buffer_stage(p3, dti);

    // Step 5: the ground jump.
    if player.jump_buffer_counter > 0 && player.coyote_time_counter > 0 {
        player.velocity.y = -JUMP_FORCE;
        player.wants_to_jump = false;
        player.coyote_time_counter = 0;
        player.jump_buffer_counter = 0;
    }
    assert(*player == jump_stage(p4));
    let ghost p5 = jump_stage(p4);

    // Step 6: the wall jump.
    if player.jump_buffer_counter > 0 && player.is_sliding {
        player.added_velocity.x = sat_mul(player.wants_dir, -WALL_JUMP_FORCE);
        player.velocity.y = -JUMP_FORCE;
        player.wants_to_jump = false;
    }
    assert(*player == wall_jump_stage(p5));
    let ghost p6 = wall_jump_stage(p5);

    // Step 7: the slide cap.
    if player.is_sliding {
        if player.velocity.y > SLIDE_MAX_FALL_SPEED {
            player.velocity.y = SLIDE_MAX_FALL_SPEED;
        }
    }
    assert(*player == slide_cap_stage(p6));
    let ghost p7 = slide_cap_stage(p6);

    // Step 8: friction.
    if player.added_velocity.x > 0 {
        player.added_velocity.x = add_scaled(player.added_velocity.x, -FRICTION, dt);
    }
    if player.added_velocity.x < 0 {
        player.added_velocity.x = add_scaled(player.added_velocity.x, FRICTION, dt);
    }
    if player.added_velocity.x > -MIN_FRICTION_SNAP && player.added_velocity.x < MIN_FRICTION_SNAP
        && player.wants_dir == 0 {
        player.added_velocity.x = 0;
    }
    assert(*player == friction_stage(p7, dti));
}

/// The desired horizontal direction that held keys flatten to: right wins
/// over left, neither means standstill.
pub open spec fn intent_dir(left: bool, right: bool) -> int {
    if right {
        1
    } else if left {
        -1
    } else {
        0
    }
}

/// The intent-driven mode change: held movement wakes an idling player to
/// walking; released movement sends a walking player back to idling; every
/// other mode stands.
pub open spec fn intent_state(s: PlayerStateMachine, wanna_move: bool) -> PlayerStateMachine {
    if wanna_move {
        if s == PlayerStateMachine::Idling {
            PlayerStateMachine::Walking
        } else {
            s
        }
    } else {
        if s == PlayerStateMachine::Walking {
            PlayerStateMachine::Idling
        } else {
            s
        }
    }
}

/// Turns this frame's flattened input into movement intent on the player:
/// desired direction, jump press, interact hold, and the idle/walk flip.
pub fn move_player(
    player: &mut PlayerState,
    left: bool,
    right: bool,
    jump_pressed: bool,
    interact_held: bool,
)
    ensures
        *final(player) == (PlayerState {
            wants_dir: intent_dir(left, right) as i64,
            wants_to_jump: jump_pressed,
            wants_to_interact: interact_held,
            state: intent_state(old(player).state, left || right),
            ..*old(player)
        }),
{
    let mut wanna_move = false;
    if left {
        player.wants_dir = -1;
        wanna_move = true;
    }
    if right {
        player.wants_dir = 1;
        wanna_move = true;
    }
    player.wants_to_jump = jump_pressed;
    if wanna_move {
        if player.state == PlayerStateMachine::Idling {
            player.state = PlayerStateMachine::Walking;
        }
    } else {
        if player.state == PlayerStateMachine::Walking {
            player.state = PlayerStateMachine::Idling;
        }
        player.wants_dir = 0;
    }
    player.wants_to_interact = interact_held;
}

/// What one frame's interaction action came to.
pub enum InteractionResult {
    Nothing,
    /// The player stepped through a door: map path and spawn number the
    /// caller must load next.
    ChangeMap(String, u32),
    /// The player inspected something: the dialog to start.
    Inspect(u32),
}

/// The player may act on an interactable this frame: standing in one,
/// pressing interact, in a mode that allows it.
pub open spec fn interact_gate(p: PlayerState) -> bool {
    p.can_interact && p.wants_to_interact && (p.state == PlayerStateMachine::Idling || p.state
        == PlayerStateMachine::Walking)
}

/// Index of the first interactable marked as holding the player, or -1 if
/// none is marked.
pub open spec fn first_marked(ints: Seq<Interactable>) -> int
    decreases ints.len(),
{
    if ints.len() == 0 {
        -1
    } else if ints[0].is_in_collider {
        0
    } else {
        let r = first_marked(ints.drop_first());
        if r < 0 {
            -1
        } else {
            r + 1
        }
    }
}

/// When no interactable is marked, there is no first marked one.
proof fn lemma_first_marked_none(ints: Seq<Interactable>)
    requires
        forall|j: int| 0 <= j < ints.len() ==> !ints[j].is_in_collider,
    ensures
        first_marked(ints) == -1,
    decreases ints.len(),
{
    if ints.len() > 0 {
        lemma_first_marked_none(ints.drop_first());
    }
}

/// When everything before `i` is unmarked and `i` is marked, `i` is the
/// first marked index.
proof fn lemma_first_marked_at(ints: Seq<Interactable>, i: int)
    requires
        0 <= i < ints.len(),
        forall|j: int| 0 <= j < i ==> !ints[j].is_in_collider,
        ints[i].is_in_collider,
    ensures
        first_marked(ints) == i,
    decreases ints.len(),
{
    if i > 0 {
        lemma_first_marked_at(ints.drop_first(), i - 1);
    }
}

/// Performs the player's interaction action for this frame, when
/// [`interact_gate`] allows one. It acts on the first marked interactable:
/// a map change records the door's target on the player and asks the
/// caller to load it, a talk zone puts the player into the talking mode
/// and names the dialog. With nothing marked despite a raised
/// `can_interact` (a stale flag), it degrades to no result.
pub fn player_interact(physics: &PhysicsState, player: &mut PlayerState) -> (r: InteractionResult)
    ensures
        ({
            let ints = physics.interactables@;
            let k = first_marked(ints);
            if !interact_gate(*old(player)) || k < 0 {
                r is Nothing && *final(player) == *old(player)
            } else {
                match ints[k].interaction {
                    Interactions::ChangeMap(path, numb) => r == InteractionResult::ChangeMap(
                        path,
                        numb,
                    ) && *final(player) == (PlayerState {
                        spawn_point: numb,
                        current_map: path,
                        ..*old(player)
                    }),
                    Interactions::Talk(id) => r == InteractionResult::Inspect(id) && *final(player)
                        == (PlayerState { state: PlayerStateMachine::Talking, ..*old(player) }),
                }
            }
        }),
{
    if player.can_interact && player.wants_to_interact && (player.state
        == PlayerStateMachine::Idling || player.state == PlayerStateMachine::Walking) {
        let n = physics.interactables.len();
        let mut found = false;
        let mut idx: usize = 0;
        for i in 0..n
            invariant
                n == physics.interactables@.len(),
                !found ==> forall|j: int|
                    0 <= j < i ==> !physics.interactables@[j].is_in_collider,
                found ==> 0 <= idx < i && physics.interactables@[idx as int].is_in_collider
                    && forall|j: int| 0 <= j < idx ==> !physics.interactables@[j].is_in_collider,
        {
            if !found && physics.interactables[i].is_in_collider {
                found = true;
                idx = i;
            }
        }
        if !found {
            proof {
                lemma_first_marked_none(physics.interactables@);
            }
            return InteractionResult::Nothing;
        }
        proof {
            lemma_first_marked_at(physics.interactables@, idx as int);
        }
        match &physics.interactables[idx].interaction {
            Interactions::ChangeMap(path, numb) => {
                player.spawn_point = *numb;
                player.current_map = path.clone();
                return InteractionResult::ChangeMap(path.clone(), *numb);
            },
            Interactions::Talk(id) => {
                player.state = PlayerStateMachine::Talking;
                return InteractionResult::Inspect(*id);
            },
        }
    }
    return InteractionResult::Nothing;
}

/// Index of the first spawn marker carrying the number `place`, or -1.
pub open spec fn first_spawn(spawns: Seq<SpawnPoint>, place: int) -> int
    decreases spawns.len(),
{
    if spawns.len() == 0 {
        -1
    } else if spawns[0].place == place {
        0
    } else {
        let r = first_spawn(spawns.drop_first(), place);
        if r < 0 {
            -1
        } else {
            r + 1
        }
    }
}

/// When no marker carries the number, there is no first match.
proof fn lemma_first_spawn_none(spawns: Seq<SpawnPoint>, place: int)
    requires
        forall|j: int| 0 <= j < spawns.len() ==> spawns[j].place != place,
    ensures
        first_spawn(spawns, place) == -1,
    decreases spawns.len(),
{
    if spawns.len() > 0 {
        lemma_first_spawn_none(spawns.drop_first(), place);
    }
}

/// When everything before `i` misses the number and `i` carries it, `i`
/// is the first match.
proof fn lemma_first_spawn_at(spawns: Seq<SpawnPoint>, place: int, i: int)
    requires
        0 <= i < spawns.len(),
        forall|j: int| 0 <= j < i ==> spawns[j].place != place,
        spawns[i].place == place,
    ensures
        first_spawn(spawns, place) == i,
    decreases spawns.len(),
{
    if i > 0 {
        lemma_first_spawn_at(spawns.drop_first(), place, i - 1);
    }
}

/// Places the player on the first spawn marker carrying the number
/// `spawn`: the marker's position, lifted by the player's height because a
/// marker anchors at its bottom-left corner while the player's box anchors
/// at its top-left. With no such marker the player is left untouched and
/// the load fails.
pub fn load_player_spawn(player: &mut PlayerState, spawns: &Vec<SpawnPoint>, spawn: u32) -> (r:
    Result<(), LoadError>)
    ensures
        ({
            let k = first_spawn(spawns@, spawn as i32 as int);
            if k < 0 {
                r == Result::<(), LoadError>::Err(LoadError::SpawnNotFound) && *final(player)
                    == *old(player)
            } else {
                r is Ok && *final(player) == (PlayerState {
                    x: spawns@[k].x,
                    y: sat64(spawns@[k].y - SUBPIXELS * old(player).height) as i64,
                    ..*old(player)
                })
            }
        }),
{
    let target = spawn as i32;
    let n = spawns.len();
    let mut found = false;
    let mut idx: usize = 0;
    for i in 0..n
        invariant
            n == spawns@.len(),
            target == spawn as i32,
            !found ==> forall|j: int| 0 <= j < i ==> spawns@[j].place != target,
            found ==> 0 <= idx < i && spawns@[idx as int].place == target && forall|j: int|
                0 <= j < idx ==> spawns@[j].place != target,
    {
        if !found && spawns[i].place == target {
            found = true;
            idx = i;
        }
    }
    if !found {
        proof {
            lemma_first_spawn_none(spawns@, target as int);
        }
        return Result::Err(LoadError::SpawnNotFound);
    }
    proof {
        lemma_first_spawn_at(spawns@, target as int, idx as int);
    }
    player.x = spawns[idx].x;
    player.y = sat_sub(spawns[idx].y, SUBPIXELS * (player.height as i64));
    return Result::Ok(());
}

} // verus!
