//! Per-frame simulation core of a 2D platformer: kinematic physics with
//! axis-separated collision resolution, jump-assist timers (coyote time,
//! jump buffering), wall slide / wall jump, a player state machine, and
//! interaction-zone detection.
//!
//! All quantities live in a fixed-point integer world so that every frame
//! step is exactly specified:
//! - space is measured in sub-pixels, [`num::SUBPIXELS`] per world pixel;
//! - time is measured in milliseconds;
//! - speeds are sub-pixels per second, accelerations sub-pixels per
//!   second squared.
//!
//! Arithmetic saturates at the `i64` range instead of overflowing, so every
//! update is total: callers feed any elapsed time and any body state and get
//! the exactly described result back.

pub mod animation;
pub mod dialog;
pub mod enemy;
pub mod laws;
pub mod loading;
pub mod num;
pub mod physics;
pub mod player;
