use tomato_core::physics::{player_physics, PhysicsState};
use tomato_core::player::{move_player, player_movement, PlayerState, PlayerStateMachine};

fn airborne_player() -> PlayerState {
    PlayerState::new(0, 0)
}

#[test]
fn friction_snaps_small_positive_speed_to_zero() {
    let mut p = airborne_player();
    p.added_velocity.x = 5_000;
    p.wants_dir = 0;
    player_movement(&mut p, 100);
    assert_eq!(p.added_velocity.x, 0);
}

#[test]
fn friction_snaps_for_any_frame_length() {
    for dt in [1i64, 10, 16, 30, 100, 1000, 50_000] {
        let mut p = airborne_player();
        p.added_velocity.x = 5_000;
        p.wants_dir = 0;
        player_movement(&mut p, dt);
        assert_eq!(p.added_velocity.x, 0);
    }
}

#[test]
fn friction_does_not_snap_at_threshold() {
    let mut p = airborne_player();
    p.added_velocity.x = 60_000;
    p.wants_dir = 0;
    player_movement(&mut p, 100);
    // 60_000 pushed down by 500 * 100 leaves 10_000, exactly at the
    // threshold, which does not snap.
    assert_eq!(p.added_velocity.x, 10_000);
}

#[test]
fn added_velocity_stays_clamped_while_steering_right() {
    let mut p = airborne_player();
    p.state = PlayerStateMachine::Walking;
    p.wants_dir = 1;
    p.added_velocity.x = 150_000;
    player_movement(&mut p, 100);
    // Pushed to 250_000, clamped to 150_000, rubbed down to 100_000.
    assert_eq!(p.added_velocity.x, 100_000);
    assert!(p.added_velocity.x <= 150_000);
    assert!(p.added_velocity.x >= -150_000);
}

#[test]
fn idling_player_does_not_accelerate() {
    let mut p = airborne_player();
    p.state = PlayerStateMachine::Idling;
    p.wants_dir = 1;
    player_movement(&mut p, 100);
    assert_eq!(p.added_velocity.x, 0);
    // The frame's acceleration is still derived from the held direction.
    assert_eq!(p.acceleration.x, 1_000_000);
}

#[test]
fn gravity_accumulates_each_frame() {
    let mut p = airborne_player();
    player_movement(&mut p, 100);
    assert_eq!(p.velocity.y, 80_000);
    player_movement(&mut p, 100);
    assert_eq!(p.velocity.y, 160_000);
}

#[test]
fn coyote_jump_within_grace_period() {
    let world = PhysicsState::default();
    let mut p = airborne_player();
    // Frame N: resolved as grounded on the previous frame.
    p.is_grounded = true;
    player_physics(&world, &mut p, 50);
    assert_eq!(p.coyote_time_counter, 100);
    // The empty world leaves the player airborne again.
    assert!(!p.is_grounded);
    // Frame N+1: jump requested 50 ms later, still within the 100 ms grace.
    p.wants_to_jump = true;
    player_physics(&world, &mut p, 50);
    assert_eq!(p.velocity.y, -350_000);
    assert_eq!(p.coyote_time_counter, 0);
    assert_eq!(p.jump_buffer_counter, 0);
    assert!(!p.wants_to_jump);
}

#[test]
fn no_jump_after_coyote_expiry() {
    let world = PhysicsState::default();
    let mut p = airborne_player();
    p.is_grounded = true;
    player_physics(&world, &mut p, 50);
    assert_eq!(p.coyote_time_counter, 100);
    // Frame N+1: jump requested 150 ms later, after the grace expired.
    p.wants_to_jump = true;
    player_physics(&world, &mut p, 150);
    // Only gravity: 40_000 from frame N plus 120_000 this frame.
    assert_eq!(p.velocity.y, 160_000);
    assert_ne!(p.velocity.y, -350_000);
    assert!(p.coyote_time_counter < 0);
}

#[test]
fn jump_buffer_remembers_an_early_press() {
    let mut p = airborne_player();
    p.wants_to_jump = true;
    p.is_grounded = false;
    p.coyote_time_counter = 0;
    player_movement(&mut p, 50);
    // The press is buffered even though no jump fired.
    assert_eq!(p.jump_buffer_counter, 100);
    // Landing within the buffer window fires the jump.
    p.wants_to_jump = false;
    p.is_grounded = true;
    player_movement(&mut p, 50);
    assert_eq!(p.velocity.y, -350_000);
}

#[test]
fn ground_jump_consumes_the_buffer_before_the_wall_jump_is_checked() {
    let mut p = airborne_player();
    p.state = PlayerStateMachine::Falling;
    p.is_grounded = true;
    p.is_sliding = true;
    p.wants_to_jump = true;
    p.wants_dir = 1;
    player_movement(&mut p, 100);
    assert_eq!(p.velocity.y, -350_000);
    // The ground jump zeroed the buffer, so the wall jump that is checked
    // right after it did not fire: the intentional speed shows one frame
    // of acceleration and friction, not the wall-jump impulse.
    assert_eq!(p.added_velocity.x, 50_000);
}

#[test]
fn move_player_flattens_held_keys() {
    let mut p = airborne_player();
    move_player(&mut p, false, true, true, false);
    assert_eq!(p.wants_dir, 1);
    assert!(p.wants_to_jump);
    assert!(!p.wants_to_interact);
    assert_eq!(p.state, PlayerStateMachine::Walking);

    move_player(&mut p, true, false, false, true);
    assert_eq!(p.wants_dir, -1);
    assert!(!p.wants_to_jump);
    assert!(p.wants_to_interact);
    assert_eq!(p.state, PlayerStateMachine::Walking);

    move_player(&mut p, false, false, false, false);
    assert_eq!(p.wants_dir, 0);
    assert_eq!(p.state, PlayerStateMachine::Idling);
}

#[test]
fn right_wins_when_both_directions_held() {
    let mut p = airborne_player();
    move_player(&mut p, true, true, false, false);
    assert_eq!(p.wants_dir, 1);
}
