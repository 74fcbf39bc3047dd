//! Exact angle arithmetic in look units.
//!
//! One look unit is the rotation produced by one device unit of mouse
//! motion: `(1/360) * (pi/4)` radians, so a full turn of `2 * pi` is
//! `2880` units and a right angle of `pi/2` is `720` units. Counting in
//! units keeps the wrap of the yaw and the clamp of the pitch exact.

use vstd::prelude::*;
use vstd::arithmetic::div_mod::lemma_add_mod_noop;
use vstd::arithmetic::div_mod::lemma_mod_add_multiples_vanish;
use vstd::arithmetic::div_mod::lemma_mod_bound;
use vstd::arithmetic::div_mod::lemma_mod_twice;
use vstd::arithmetic::div_mod::lemma_sub_mod_noop;

verus! {

/// Look units in one full turn: `2 * pi` radians.
pub const YAW_TURN_UNITS: u32 = 2880;

/// Look units in a right angle: `pi / 2` radians, the pitch limit.
pub const PITCH_LIMIT_UNITS: i32 = 720;

/// The yaw after a horizontal mouse motion of `dx` device units: the yaw
/// decreases by `dx` and is reduced into `[0, YAW_TURN_UNITS)`. The `%`
/// here is the Euclidean remainder, so the result is never negative.
pub open spec fn wrap_yaw(yaw: int, dx: int) -> int {
    (yaw - dx) % (YAW_TURN_UNITS as int)
}

/// The pitch after a vertical mouse motion of `dy` device units: the pitch
/// increases by `dy` and is clamped into
/// `[-PITCH_LIMIT_UNITS, PITCH_LIMIT_UNITS]`.
pub open spec fn clamp_pitch(pitch: int, dy: int) -> int {
    let raw = pitch + dy;
    if raw > PITCH_LIMIT_UNITS as int {
        PITCH_LIMIT_UNITS as int
    } else if raw < -(PITCH_LIMIT_UNITS as int) {
        -(PITCH_LIMIT_UNITS as int)
    } else {
        raw
    }
}

/// Apply a horizontal mouse motion to a yaw, in look units.
pub fn wrap_yaw_units(yaw: u32, dx: i32) -> (r: u32)
    ensures
        r == wrap_yaw(yaw as int, dx as int),
        r < YAW_TURN_UNITS,
{
    let m: u32 = YAW_TURN_UNITS;
    let y: u32 = yaw % m;
    proof {
        lemma_mod_bound(yaw as int, m as int);
        lemma_mod_twice(yaw as int, m as int);
    }
    if dx >= 0 {
        let d: u32 = (dx as u32) % m;
        proof {
            lemma_mod_bound(dx as int, m as int);
            // (y + m - d) % m == (y - d) % m == (yaw - dx) % m
            lemma_mod_add_multiples_vanish(y - d, m as int);
            lemma_sub_mod_noop(yaw as int, dx as int, m as int);
        }
        (y + m - d) % m
    } else {
        let nd: i64 = -(dx as i64);
        let d: u32 = ((nd as u64) % (m as u64)) as u32;
        proof {
            lemma_mod_bound(nd as int, m as int);
            // (y + d) % m == (yaw + (-dx)) % m == (yaw - dx) % m
            lemma_add_mod_noop(yaw as int, nd as int, m as int);
        }
        (y + d) % m
    }
}

/// Apply a vertical mouse motion to a pitch, in look units.
pub fn clamp_pitch_units(pitch: i32, dy: i32) -> (r: i32)
    ensures
        r == clamp_pitch(pitch as int, dy as int),
        -PITCH_LIMIT_UNITS <= r <= PITCH_LIMIT_UNITS,
{
    let raw: i64 = pitch as i64 + dy as i64;
    if raw > PITCH_LIMIT_UNITS as i64 {
        PITCH_LIMIT_UNITS
    } else if raw < -(PITCH_LIMIT_UNITS as i64) {
        -PITCH_LIMIT_UNITS
    } else {
        raw as i32
    }
}

} // verus!
