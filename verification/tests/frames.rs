use tomato_core::physics::{player_physics, PhysicsState};
use tomato_core::player::{move_player, PlayerState, PlayerStateMachine};

/// Twenty frames of walking right through an empty world, with the final
/// position checked against a replay of the exact per-frame formula.
#[test]
fn twenty_frames_of_walking_match_the_integrated_sum() {
    let world = PhysicsState::default();
    let mut p = PlayerState::new(0, 0);
    let dt: i64 = 100;

    // The replayed model: intentional speed and position in sub-pixels.
    let mut added: i64 = 0;
    let mut x: i64 = 0;

    for _ in 0..20 {
        move_player(&mut p, false, true, false, false);
        player_physics(&world, &mut p, dt);

        // Replay: acceleration of 1000 sub-pixels per second per
        // millisecond of frame, clamped, then friction of 500 per
        // millisecond, pushed back if it overshot zero.
        added = added + 1000 * dt;
        if added > 150_000 {
            added = 150_000;
        }
        let rubbed = added - 500 * dt;
        added = if rubbed < 0 { added } else { rubbed };
        x += added * dt / 1000;

        assert_eq!(p.added_velocity.x, added);
        assert_eq!(p.x, x);
        assert!(p.added_velocity.x <= 150_000);
    }

    // The ramp: one frame at half speed, then steady at 100 sub-pixel
    // units per second below the clamp.
    assert_eq!(p.added_velocity.x, 100_000);
    assert_eq!(p.x, 5_000 + 19 * 10_000);
    // Never grounded, so the fall turned the walk into falling.
    assert_eq!(p.state, PlayerStateMachine::Falling);
}
