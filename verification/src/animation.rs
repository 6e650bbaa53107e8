//! Sprite-sheet animation timing. The frames are rectangles into a sprite
//! sheet; the timer counts up from `-time_per_frame` in milliseconds and
//! steps the frame whenever it crosses zero.

use vstd::prelude::*;

use crate::num::sat64;
use crate::num::{sat_add, sat_sub};

verus! {

/// One frame of an animation: a rectangle into the sprite sheet.
#[derive(Clone, Copy, PartialEq, Eq, Structural, Debug)]
pub struct AnimationFrame {
    pub x: i32,
    pub y: i32,
    pub w: u32,
    pub h: u32,
}

/// A looping animation: its frames, how long each is held (milliseconds),
/// the running timer and the frame currently shown.
#[derive(Clone)]
pub struct Animation {
    pub frames: Vec<AnimationFrame>,
    pub time_per_frame: i64,
    pub timer: i64,
    pub current_frame: usize,
}

impl Animation {
    /// A new animation holding each frame for `time_per_frame`
    /// milliseconds, with no frames yet.
    pub fn new(time_per_frame: i64) -> (a: Animation)
        ensures
            a.frames@.len() == 0,
            a.time_per_frame == time_per_frame,
            a.timer == 0,
            a.current_frame == 0,
    {
        Animation { frames: Vec::new(), time_per_frame, timer: 0, current_frame: 0 }
    }
}

/// Advances an animation by `dt` milliseconds: the timer counts up, and on
/// crossing zero it rewinds to `-time_per_frame` and the next frame of the
/// loop is shown.
pub fn animate(anim: &mut Animation, dt: i64)
    requires
        0 <= dt,
        old(anim).frames@.len() > 0,
        old(anim).current_frame < old(anim).frames@.len(),
    ensures
        ({
            let t = sat64(old(anim).timer + dt);
            if t > 0 {
                *final(anim) == (Animation {
                    timer: sat64(-(old(anim).time_per_frame as int)) as i64,
                    current_frame: (((old(anim).current_frame + 1) as int) % (
                    old(anim).frames@.len() as int)) as usize,
                    ..*old(anim)
                })
            } else {
                *final(anim) == (Animation { timer: t as i64, ..*old(anim) })
            }
        }),
{
    let len = anim.frames.len();
    anim.timer = sat_add(anim.timer, dt);
    if anim.timer > 0 {
        anim.timer = sat_sub(0, anim.time_per_frame);
        anim.current_frame = (anim.current_frame + 1) % len;
    }
}

} // verus!
