//! Fixed-point geometry: headings, points, and motion that cannot overflow.

use vstd::prelude::*;
use crate::input::{
    held, BoxInput, INPUT_DOWN, INPUT_DOWN2, INPUT_LEFT, INPUT_LEFT2, INPUT_RIGHT, INPUT_RIGHT2,
    INPUT_UP, INPUT_UP2,
};

verus! {

/// Frames per second. All timers count frames, so one frame is the unit of time.
pub const FPS: u32 = 60;

/// The length of a unit heading.
pub const UNIT: i32 = 1_000_000;

/// Each component of a unit heading that points along a diagonal: `UNIT / sqrt(2)`,
/// rounded to the nearest integer.
pub const DIAGONAL: i32 = 707_107;

/// How many position steps make one pixel: `FPS * UNIT`. A body whose heading
/// has length `UNIT` and whose speed is `s` pixels per second moves by
/// `heading * s` position steps per frame, with no division.
pub const STEPS_PER_PIXEL: i64 = 60_000_000;

/// A direction in the plane. `UNIT` stands for one.
#[derive(Clone, Copy, Debug, PartialEq, Eq, Structural)]
pub struct Heading {
    pub x: i32,
    pub y: i32,
}

/// A position in the plane, in position steps.
#[derive(Clone, Copy, Debug, PartialEq, Eq, Structural)]
pub struct Point {
    pub x: i64,
    pub y: i64,
}

/// `v`, or the end of the `i64` range that it lies beyond.
pub open spec fn clamp(v: int) -> int {
    if v < i64::MIN {
        i64::MIN as int
    } else if v > i64::MAX {
        i64::MAX as int
    } else {
        v
    }
}

/// Where the two buttons `plus` and `minus` pull along one axis: 1, 0 or -1.
pub open spec fn axis(val: u8, plus: u8, minus: u8) -> int {
    (if held(val, plus) {
        1int
    } else {
        0int
    }) - (if held(val, minus) {
        1int
    } else {
        0int
    })
}

/// The heading of length one (up to rounding) that points the way of
/// `(dx, dy)`, or the zero heading where both are zero. Meant for `dx` and
/// `dy` among -1, 0 and 1.
pub open spec fn unit_heading(dx: int, dy: int) -> Heading {
    if dx != 0 && dy != 0 {
        Heading { x: (dx * DIAGONAL) as i32, y: (dy * DIAGONAL) as i32 }
    } else {
        Heading { x: (dx * UNIT) as i32, y: (dy * UNIT) as i32 }
    }
}

/// The heading in which the movement buttons of `val` steer.
pub open spec fn steering(val: u8) -> Heading {
    unit_heading(axis(val, INPUT_RIGHT, INPUT_LEFT), axis(val, INPUT_UP, INPUT_DOWN))
}

/// The heading in which the fire buttons of `val` aim.
pub open spec fn aim(val: u8) -> Heading {
    unit_heading(axis(val, INPUT_RIGHT2, INPUT_LEFT2), axis(val, INPUT_UP2, INPUT_DOWN2))
}

impl Heading {
    /// The heading that points nowhere.
    pub open spec fn zero() -> Heading {
        Heading { x: 0, y: 0 }
    }

    /// Whether this heading points nowhere.
    pub fn is_zero(&self) -> (out: bool)
        ensures
            out == (*self == Heading::zero()),
    {
        self.x == 0 && self.y == 0
    }
}

impl Point {
    /// This point carried along `heading` at `speed` for one frame. Each
    /// coordinate stops at the end of the `i64` range.
    pub open spec fn shifted(self, heading: Heading, speed: i32) -> Point {
        Point {
            x: clamp(self.x + heading.x * speed) as i64,
            y: clamp(self.y + heading.y * speed) as i64,
        }
    }

    /// Carries this point along `heading` at `speed` for one frame.
    pub fn shift(self, heading: Heading, speed: i32) -> (out: Point)
        ensures
            out == self.shifted(heading, speed),
    {
        Point {
            x: slide(self.x, heading.x, speed),
            y: slide(self.y, heading.y, speed),
        }
    }
}

/// One coordinate after one frame: `from + component * speed`, clamped.
fn slide(from: i64, component: i32, speed: i32) -> (out: i64)
    ensures
        out == clamp(from + component * speed),
{
    assert(-0x4000_0000_0000_0000 <= component * speed <= 0x4000_0000_0000_0000)
        by (nonlinear_arith)
        requires
            -0x8000_0000 <= component <= 0x7fff_ffff,
            -0x8000_0000 <= speed <= 0x7fff_ffff,
    ;
    let delta: i64 = (component as i64) * (speed as i64);
    match from.checked_add(delta) {
        Some(sum) => sum,
        None => if delta > 0 {
            i64::MAX
        } else {
            i64::MIN
        },
    }
}

/// Reads one axis out of the packed buttons.
fn read_axis(val: u8, plus: u8, minus: u8) -> (out: i32)
    ensures
        out == axis(val, plus, minus),
{
    let mut out: i32 = 0;
    if val & plus != 0 {
        out = out + 1;
    }
    if val & minus != 0 {
        out = out - 1;
    }
    out
}

/// Normalises a step of -1, 0 or 1 along each axis.
fn normalize(dx: i32, dy: i32) -> (out: Heading)
    requires
        -1 <= dx <= 1,
        -1 <= dy <= 1,
    ensures
        out == unit_heading(dx as int, dy as int),
{
    if dx != 0 && dy != 0 {
        Heading { x: dx * DIAGONAL, y: dy * DIAGONAL }
    } else {
        Heading { x: dx * UNIT, y: dy * UNIT }
    }
}

impl BoxInput {
    /// The heading in which the movement buttons steer: a unit heading, or
    /// zero where no button pulls or opposite buttons cancel.
    pub fn steering(&self) -> (out: Heading)
        ensures
            out == steering(self.val),
    {
        normalize(
            read_axis(self.val, INPUT_RIGHT, INPUT_LEFT),
            read_axis(self.val, INPUT_UP, INPUT_DOWN),
        )
    }

    /// The heading in which the fire buttons aim: a unit heading, or zero
    /// where no button pulls or opposite buttons cancel.
    pub fn aim(&self) -> (out: Heading)
        ensures
            out == aim(self.val),
    {
        normalize(
            read_axis(self.val, INPUT_RIGHT2, INPUT_LEFT2),
            read_axis(self.val, INPUT_UP2, INPUT_DOWN2),
        )
    }
}

} // verus!
