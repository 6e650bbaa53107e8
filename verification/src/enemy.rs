//! Enemies: the kinematic record of one patrolling enemy and the store of
//! the level's enemies. The per-frame step lives with the rest of the
//! physics in [`crate::physics`].

use vstd::prelude::*;

use crate::physics::{Collider, Vec2};

verus! {

/// The level's enemies, rebuilt wholesale on a map switch.
#[derive(Clone)]
pub struct EnemiesState {
    pub enemies: Vec<Enemy>,
}

impl EnemiesState {
    /// An empty store.
    pub fn new() -> (s: Self)
        ensures
            s.enemies@.len() == 0,
    {
        EnemiesState { enemies: Vec::new() }
    }
}

/// One patrolling enemy. Coordinates are sub-pixels, speeds sub-pixels per
/// second; `collider` holds the collision box's offset (whole pixels from
/// the sprite's top-left) and size; `dir` is the facing, reversed on a
/// horizontal collision.
#[derive(Clone, Debug)]
pub struct Enemy {
    pub x: i64,
    pub y: i64,
    pub width: u32,
    pub height: u32,
    pub velocity: Vec2,
    pub collider: Collider,
    pub dir: i32,
}

} // verus!
