//! Keyboard control of the camera: vim-style `h`, `j`, `k`, `l` and the
//! arrow keys move it left, down, up and right.
use vstd::prelude::*;

verus! {

/// Which of the movement keys are held down.
#[derive(Clone, Copy)]
pub struct MovementKeys {
    pub h: bool,
    pub j: bool,
    pub k: bool,
    pub l: bool,
    pub arrow_left: bool,
    pub arrow_down: bool,
    pub arrow_up: bool,
    pub arrow_right: bool,
}

/// 1 for a held key, 0 otherwise.
pub open spec fn held(b: bool) -> int {
    if b { 1 } else { 0 }
}

/// The direction the held keys push the camera in, before normalization:
/// each held key adds one unit along its axis, so `l` and `h` together, or
/// right and left, cancel out.
pub fn keyboard_direction(keys: &MovementKeys) -> (d: (i32, i32))
    ensures
        d.0 == held(keys.l) + held(keys.arrow_right) - held(keys.h) - held(keys.arrow_left),
        d.1 == held(keys.k) + held(keys.arrow_up) - held(keys.j) - held(keys.arrow_down),
        -2 <= d.0 <= 2,
        -2 <= d.1 <= 2,
{
    let mut x: i32 = 0;
    let mut y: i32 = 0;
    if keys.h {
        x -= 1;
    }
    if keys.l {
        x += 1;
    }
    if keys.k {
        y += 1;
    }
    if keys.j {
        y -= 1;
    }
    if keys.arrow_left {
        x -= 1;
    }
    if keys.arrow_right {
        x += 1;
    }
    if keys.arrow_up {
        y += 1;
    }
    if keys.arrow_down {
        y -= 1;
    }
    (x, y)
}

} // verus!
