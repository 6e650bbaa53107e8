use tomato_core::animation::{animate, Animation, AnimationFrame};
use tomato_core::enemy::EnemiesState;
use tomato_core::loading::{
    begin_map_switch, parse_enemy, parse_interactable, LoadError, PropertyVal, SpawnPoint,
};
use tomato_core::physics::{Collider, Interactions, PhysicsState};
use tomato_core::player::{load_player_spawn, PlayerState};

fn rect() -> Collider {
    Collider { x: 10, y: 20, w: 30, h: 40 }
}

#[test]
fn a_door_object_parses_to_a_map_change() {
    let r = parse_interactable(
        rect(),
        Some(PropertyVal::StrVal(String::from("res/cave.tmx"))),
        Some(PropertyVal::IntVal(2)),
        None,
    );
    let it = r.unwrap().unwrap();
    assert_eq!(it.collider, rect());
    assert!(!it.is_in_collider);
    match it.interaction {
        Interactions::ChangeMap(path, spawn) => {
            assert_eq!(path, "res/cave.tmx");
            assert_eq!(spawn, 2);
        }
        _ => panic!("expected a map change"),
    }
}

#[test]
fn a_door_without_a_spawn_place_is_rejected() {
    let r = parse_interactable(
        rect(),
        Some(PropertyVal::StrVal(String::from("res/cave.tmx"))),
        None,
        None,
    );
    assert_eq!(r.unwrap_err(), LoadError::MissingProperty);
}

#[test]
fn a_door_with_wrongly_typed_properties_is_rejected() {
    let r = parse_interactable(rect(), Some(PropertyVal::IntVal(1)), None, None);
    assert_eq!(r.unwrap_err(), LoadError::WrongPropertyType);
    let r = parse_interactable(
        rect(),
        Some(PropertyVal::StrVal(String::from("res/cave.tmx"))),
        Some(PropertyVal::StrVal(String::from("2"))),
        None,
    );
    assert_eq!(r.unwrap_err(), LoadError::WrongPropertyType);
}

#[test]
fn a_talk_object_parses_to_a_talk_zone() {
    let r = parse_interactable(rect(), None, None, Some(PropertyVal::IntVal(7)));
    let it = r.unwrap().unwrap();
    match it.interaction {
        Interactions::Talk(id) => assert_eq!(id, 7),
        _ => panic!("expected a talk zone"),
    }
}

#[test]
fn a_wrongly_typed_talk_id_is_rejected() {
    let r = parse_interactable(rect(), None, None, Some(PropertyVal::StrVal(String::from("x"))));
    assert_eq!(r.unwrap_err(), LoadError::WrongPropertyType);
}

#[test]
fn an_untagged_object_is_no_interactable() {
    let r = parse_interactable(rect(), None, None, None);
    assert!(r.unwrap().is_none());
}

#[test]
fn an_enemy_object_parses_with_its_facing_and_texture() {
    let r = parse_enemy(
        5_000,
        6_000,
        16,
        16,
        Some(PropertyVal::IntVal(-1)),
        Some(PropertyVal::StrVal(String::from("res/tomato_gumba.png"))),
    );
    let (e, texture) = r.unwrap();
    assert_eq!(e.x, 5_000);
    assert_eq!(e.y, 6_000);
    assert_eq!(e.dir, -1);
    assert_eq!(e.collider, Collider { x: 0, y: 0, w: 16, h: 16 });
    assert_eq!(e.velocity.x, 0);
    assert_eq!(e.velocity.y, 0);
    assert_eq!(texture, "res/tomato_gumba.png");
}

#[test]
fn an_enemy_without_its_properties_is_rejected() {
    let r = parse_enemy(0, 0, 16, 16, None, None);
    assert_eq!(r.unwrap_err(), LoadError::MissingProperty);
    let r = parse_enemy(
        0,
        0,
        16,
        16,
        Some(PropertyVal::StrVal(String::from("1"))),
        Some(PropertyVal::StrVal(String::from("t.png"))),
    );
    assert_eq!(r.unwrap_err(), LoadError::WrongPropertyType);
    let r = parse_enemy(0, 0, 16, 16, Some(PropertyVal::IntVal(1)), None);
    assert_eq!(r.unwrap_err(), LoadError::MissingProperty);
}

#[test]
fn the_player_spawns_on_the_first_matching_marker() {
    let spawns = vec![
        SpawnPoint { place: 0, x: 1_000, y: 50_000 },
        SpawnPoint { place: 1, x: 5_000, y: 32_000 },
        SpawnPoint { place: 1, x: 9_000, y: 64_000 },
    ];
    let mut p = PlayerState::new(0, 0);
    let r = load_player_spawn(&mut p, &spawns, 1);
    assert!(r.is_ok());
    assert_eq!(p.x, 5_000);
    // The marker anchors at its bottom-left corner: the player's box is
    // lifted by its own height of 16 pixels.
    assert_eq!(p.y, 32_000 - 16_000);
}

#[test]
fn a_missing_spawn_marker_fails_the_load() {
    let spawns = vec![SpawnPoint { place: 0, x: 1_000, y: 50_000 }];
    let mut p = PlayerState::new(7, 7);
    let r = load_player_spawn(&mut p, &spawns, 5);
    assert_eq!(r.unwrap_err(), LoadError::SpawnNotFound);
    assert_eq!(p.x, 7);
    assert_eq!(p.y, 7);
}

#[test]
fn a_map_switch_records_the_target_and_empties_the_stores() {
    let mut p = PlayerState::new(0, 0);
    let mut world = PhysicsState::default();
    world.colliders.push(rect());
    let mut enemies = EnemiesState::new();
    begin_map_switch(&mut p, &mut world, &mut enemies, String::from("res/cave.tmx"), 4);
    assert_eq!(p.spawn_point, 4);
    assert_eq!(p.current_map, "res/cave.tmx");
    assert!(world.colliders.is_empty());
    assert!(world.interactables.is_empty());
    assert!(enemies.enemies.is_empty());
}

#[test]
fn an_animation_steps_its_frames_in_a_loop() {
    let mut a = Animation::new(500);
    a.frames.push(AnimationFrame { x: 0, y: 0, w: 16, h: 16 });
    a.frames.push(AnimationFrame { x: 16, y: 0, w: 16, h: 16 });
    // The timer starts at zero, so the first tick fires at once.
    animate(&mut a, 16);
    assert_eq!(a.current_frame, 1);
    assert_eq!(a.timer, -500);
    // Held until the timer crosses zero again.
    animate(&mut a, 400);
    assert_eq!(a.current_frame, 1);
    assert_eq!(a.timer, -100);
    animate(&mut a, 200);
    assert_eq!(a.current_frame, 0);
    assert_eq!(a.timer, -500);
}
