use tomato_core::enemy::{EnemiesState, Enemy};
use tomato_core::physics::{
    enemies_physics, is_colliding, player_physics, Collider, PhysicsState, Vec2,
};
use tomato_core::player::{PlayerState, PlayerStateMachine};

#[test]
fn is_colliding_detects_overlap() {
    assert!(is_colliding(0, 0, 8, 16, 4, 4, 8, 8));
    assert!(!is_colliding(0, 0, 8, 16, 8, 0, 8, 8));
    assert!(!is_colliding(0, 0, 8, 16, 0, 16, 8, 8));
    // Touching edges do not count as overlap.
    assert!(!is_colliding(0, 0, 8, 8, 8, 8, 8, 8));
}

#[test]
fn falling_body_grounds_on_a_floor() {
    let mut world = PhysicsState::default();
    world.colliders.push(Collider { x: 0, y: 16, w: 32, h: 16 });
    let mut p = PlayerState::new(0, 0);
    p.velocity.y = 50_000;
    player_physics(&world, &mut p, 100);
    assert!(p.is_grounded);
    assert_eq!(p.velocity.y, 0);
    // The blocked move leaves the vertical position exactly where it was.
    assert_eq!(p.y, 0);
    assert!(!p.is_sliding);
}

#[test]
fn empty_world_never_grounds() {
    let world = PhysicsState::default();
    let mut p = PlayerState::new(0, 0);
    for _ in 0..10 {
        player_physics(&world, &mut p, 16);
        assert!(!p.is_grounded);
        assert!(!p.is_sliding);
    }
    assert!(p.y > 0);
}

#[test]
fn airborne_idler_starts_falling_and_lands_back_to_idling() {
    let mut world = PhysicsState::default();
    let mut p = PlayerState::new(0, 0);
    player_physics(&world, &mut p, 16);
    assert_eq!(p.state, PlayerStateMachine::Falling);
    world.colliders.push(Collider { x: 0, y: 16, w: 32, h: 16 });
    player_physics(&world, &mut p, 100);
    assert_eq!(p.state, PlayerStateMachine::Idling);
}

#[test]
fn blocked_wall_sets_sliding_and_keeps_x() {
    let mut world = PhysicsState::default();
    world.colliders.push(Collider { x: 12, y: 0, w: 16, h: 64 });
    let mut p = PlayerState::new(0, 0);
    p.state = PlayerStateMachine::Falling;
    p.wants_dir = 1;
    p.added_velocity.x = 100_000;
    player_physics(&world, &mut p, 100);
    assert!(p.is_sliding);
    assert!(!p.is_grounded);
    assert_eq!(p.x, 0);
    assert_eq!(p.velocity.x, 0);
}

#[test]
fn wall_jump_pushes_away_from_the_wall() {
    let mut p = PlayerState::new(0, 0);
    p.state = PlayerStateMachine::Falling;
    p.is_sliding = true;
    p.wants_dir = 1;
    p.wants_to_jump = true;
    let world = PhysicsState::default();
    player_physics(&world, &mut p, 100);
    // The wall-jump impulse of -300_000, rubbed by one frame of friction.
    assert_eq!(p.added_velocity.x, -250_000);
    assert_eq!(p.velocity.y, -350_000);
    assert!(!p.wants_to_jump);
}

#[test]
fn sliding_caps_the_fall_speed() {
    let mut p = PlayerState::new(0, 0);
    p.is_sliding = true;
    p.velocity.y = 150_000;
    let world = PhysicsState::default();
    player_physics(&world, &mut p, 100);
    assert_eq!(p.velocity.y, 100_000);
}

#[test]
fn enemy_bounces_off_a_wall() {
    let mut world = PhysicsState::default();
    world.colliders.push(Collider { x: 17, y: 0, w: 16, h: 16 });
    let mut enemies = EnemiesState::new();
    enemies.enemies.push(Enemy {
        x: 0,
        y: 0,
        width: 16,
        height: 16,
        velocity: Vec2 { x: 0, y: 0 },
        collider: Collider { x: 0, y: 0, w: 16, h: 16 },
        dir: 1,
    });
    enemies_physics(&world, &mut enemies, 100);
    let e = &enemies.enemies[0];
    assert_eq!(e.dir, -1);
    // The blocked horizontal move does not cross into the collider.
    assert_eq!(e.x, 0);
    // The vertical move was free: gravity pulled the enemy down.
    assert_eq!(e.y, 8_000);
    assert_eq!(e.velocity.y, 80_000);
}

#[test]
fn enemy_patrols_freely_without_walls() {
    let world = PhysicsState::default();
    let mut enemies = EnemiesState::new();
    enemies.enemies.push(Enemy {
        x: 10_000,
        y: 0,
        width: 16,
        height: 16,
        velocity: Vec2 { x: 0, y: 0 },
        collider: Collider { x: 0, y: 0, w: 16, h: 16 },
        dir: -1,
    });
    enemies_physics(&world, &mut enemies, 100);
    let e = &enemies.enemies[0];
    assert_eq!(e.dir, -1);
    // Patrol speed of 50 pixels per second, for 0.1 s, leftward.
    assert_eq!(e.x, 5_000);
    assert_eq!(e.velocity.x, -50_000);
}

#[test]
fn positions_clamp_at_the_world_edge() {
    let world = PhysicsState::default();
    let mut p = PlayerState::new(1_000, 0);
    p.state = PlayerStateMachine::Walking;
    p.added_velocity.x = -150_000;
    player_physics(&world, &mut p, 100);
    // The attempted move of -10 pixels overshoots the left edge.
    assert_eq!(p.x, 0);
}
