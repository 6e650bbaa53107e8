//! Validation of level content. The level loader (outside this crate's
//! concern) walks the map's object layers and hands each object's raw
//! values over; the functions here turn them into typed records or reject
//! them, so that malformed content fails at load time, never during a
//! frame.

use vstd::prelude::*;

use crate::enemy::{EnemiesState, Enemy};
use crate::physics::{Collider, Interactable, Interactions, PhysicsState, Vec2};
use crate::player::PlayerState;

verus! {

/// A property value read off a map object: the two shapes the content
/// rules use, and `Other` for every shape they do not.
#[derive(Clone, Debug)]
pub enum PropertyVal {
    IntVal(i32),
    StrVal(String),
    Other,
}

/// A spawn marker of the level: its number and its position in
/// sub-pixels. A marker anchors at its bottom-left corner.
#[derive(Clone, Copy, PartialEq, Eq, Structural, Debug)]
pub struct SpawnPoint {
    pub place: i32,
    pub x: i64,
    pub y: i64,
}

/// A content-authoring error found while loading a level.
#[derive(Clone, PartialEq, Eq, Structural, Debug)]
pub enum LoadError {
    /// A required property is absent from the object.
    MissingProperty,
    /// A required property has the wrong shape.
    WrongPropertyType,
    /// No spawn marker carries the requested spawn number.
    SpawnNotFound,
}

/// Builds the interactable of one map object from its rectangle and its
/// raw properties. An object tagged `map change` must carry a string path
/// and an integer `spawn place`; failing that the load is rejected, with
/// the path's shape checked first. An object tagged only `talk id` must
/// carry an integer. One tagged neither is no interactable.
pub fn parse_interactable(
    col: Collider,
    map_change: Option<PropertyVal>,
    spawn_place: Option<PropertyVal>,
    talk_id: Option<PropertyVal>,
) -> (r: Result<Option<Interactable>, LoadError>)
    ensures
        ({
            match map_change {
                Option::Some(PropertyVal::StrVal(path)) => {
                    match spawn_place {
                        Option::Some(PropertyVal::IntVal(sp)) => r == Result::<
                            Option<Interactable>,
                            LoadError,
                        >::Ok(
                            Option::Some(
                                Interactable {
                                    collider: col,
                                    interaction: Interactions::ChangeMap(path, sp as u32),
                                    is_in_collider: false,
                                },
                            ),
                        ),
                        Option::Some(_) => r == Result::<Option<Interactable>, LoadError>::Err(
                            LoadError::WrongPropertyType,
                        ),
                        Option::None => r == Result::<Option<Interactable>, LoadError>::Err(
                            LoadError::MissingProperty,
                        ),
                    }
                },
                Option::Some(_) => r == Result::<Option<Interactable>, LoadError>::Err(
                    LoadError::WrongPropertyType,
                ),
                Option::None => {
                    match talk_id {
                        Option::Some(PropertyVal::IntVal(id)) => r == Result::<
                            Option<Interactable>,
                            LoadError,
                        >::Ok(
                            Option::Some(
                                Interactable {
                                    collider: col,
                                    interaction: Interactions::Talk(id as u32),
                                    is_in_collider: false,
                                },
                            ),
                        ),
                        Option::Some(_) => r == Result::<Option<Interactable>, LoadError>::Err(
                            LoadError::WrongPropertyType,
                        ),
                        Option::None => r == Result::<Option<Interactable>, LoadError>::Ok(
                            Option::None,
                        ),
                    }
                },
            }
        }),
{
    match map_change {
        Option::Some(mc) => {
            let path = match mc {
                PropertyVal::StrVal(path) => path,
                _ => {
                    return Result::Err(LoadError::WrongPropertyType);
                },
            };
            let sp = match spawn_place {
                Option::Some(PropertyVal::IntVal(sp)) => sp,
                Option::Some(_) => {
                    return Result::Err(LoadError::WrongPropertyType);
                },
                Option::None => {
                    return Result::Err(LoadError::MissingProperty);
                },
            };
            Result::Ok(
                Option::Some(
                    Interactable {
                        collider: col,
                        interaction: Interactions::ChangeMap(path, sp as u32),
                        is_in_collider: false,
                    },
                ),
            )
        },
        Option::None => {
            match talk_id {
                Option::Some(PropertyVal::IntVal(id)) => Result::Ok(
                    Option::Some(
                        Interactable {
                            collider: col,
                            interaction: Interactions::Talk(id as u32),
                            is_in_collider: false,
                        },
                    ),
                ),
                Option::Some(_) => Result::Err(LoadError::WrongPropertyType),
                Option::None => Result::Ok(Option::None),
            }
        },
    }
}

/// Builds one enemy from a map object's rectangle and raw properties: an
/// integer `dir` (the starting facing) and a string `texture` (the sprite
/// sheet the renderer should use) are both required. The enemy starts at
/// rest at `(x, y)` sub-pixels with a collision box the size of its
/// sprite, anchored at its top-left corner.
pub fn parse_enemy(
    x: i64,
    y: i64,
    w: u32,
    h: u32,
    dir: Option<PropertyVal>,
    texture: Option<PropertyVal>,
) -> (r: Result<(Enemy, String), LoadError>)
    ensures
        ({
            match dir {
                Option::Some(PropertyVal::IntVal(d)) => {
                    match texture {
                        Option::Some(PropertyVal::StrVal(t)) => r == Result::<
                            (Enemy, String),
                            LoadError,
                        >::Ok(
                            (
                                Enemy {
                                    x,
                                    y,
                                    width: w,
                                    height: h,
                                    velocity: Vec2 { x: 0, y: 0 },
                                    collider: Collider { x: 0, y: 0, w, h },
                                    dir: d,
                                },
                                t,
                            ),
                        ),
                        Option::Some(_) => r == Result::<(Enemy, String), LoadError>::Err(
                            LoadError::WrongPropertyType,
                        ),
                        Option::None => r == Result::<(Enemy, String), LoadError>::Err(
                            LoadError::MissingProperty,
                        ),
                    }
                },
                Option::Some(_) => r == Result::<(Enemy, String), LoadError>::Err(
                    LoadError::WrongPropertyType,
                ),
                Option::None => r == Result::<(Enemy, String), LoadError>::Err(
                    LoadError::MissingProperty,
                ),
            }
        }),
{
    let d = match dir {
        Option::Some(PropertyVal::IntVal(d)) => d,
        Option::Some(_) => {
            return Result::Err(LoadError::WrongPropertyType);
        },
        Option::None => {
            return Result::Err(LoadError::MissingProperty);
        },
    };
    let t = match texture {
        Option::Some(PropertyVal::StrVal(t)) => t,
        Option::Some(_) => {
            return Result::Err(LoadError::WrongPropertyType);
        },
        Option::None => {
            return Result::Err(LoadError::MissingProperty);
        },
    };
    Result::Ok(
        (
            Enemy {
                x,
                y,
                width: w,
                height: h,
                velocity: Vec2 { x: 0, y: 0 },
                collider: Collider { x: 0, y: 0, w, h },
                dir: d,
            },
            t,
        ),
    )
}

/// The bookkeeping of a map switch: records the door's target on the
/// player as its new respawn point and empties every per-level store. The
/// caller then loads the new level's content into the emptied stores and
/// places the player through the spawn lookup.
pub fn begin_map_switch(
    player: &mut PlayerState,
    physics: &mut PhysicsState,
    enemies: &mut EnemiesState,
    path: String,
    spawn: u32,
)
    ensures
        *final(player) == (PlayerState { spawn_point: spawn, current_map: path, ..*old(player) }),
        final(physics).colliders@.len() == 0,
        final(physics).interactables@.len() == 0,
        final(enemies).enemies@.len() == 0,
{
    player.spawn_point = spawn;
    player.current_map = path;
    physics.colliders.clear();
    physics.interactables.clear();
    enemies.enemies.clear();
}

} // verus!
