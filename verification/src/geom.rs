//! Window geometry, positions, velocities and draw primitives.

use vstd::prelude::*;

verus! {

/// Width of the playing field in pixels.
pub const WINDOW_W: i32 = 640;
/// Height of the playing field in pixels.
pub const WINDOW_H: i32 = 480;
/// Width of a paddle.
pub const BAT_W: i32 = 30;
/// Height of a paddle.
pub const BAT_H: i32 = 120;
/// Side length of the (square) ball.
pub const BALL_SIZE: i32 = 20;

/// Top-left corner of an entity's bounding rectangle.
#[derive(Clone, Copy, PartialEq, Eq, Structural, Debug)]
pub struct Position {
    pub x: i32,
    pub y: i32,
}

/// Per-millisecond (ball) or per-frame (paddle) displacement.
#[derive(Clone, Copy, PartialEq, Eq, Structural, Debug)]
pub struct Movement {
    pub dx: i32,
    pub dy: i32,
}

/// An RGB color, as handed to the renderer.
#[derive(Clone, Copy, PartialEq, Eq, Structural, Debug)]
pub struct Rgb {
    pub r: u8,
    pub g: u8,
    pub b: u8,
}

/// An axis-aligned rectangle in window coordinates.
#[derive(Clone, Copy, PartialEq, Eq, Structural, Debug)]
pub struct ScreenRect {
    pub x: i32,
    pub y: i32,
    pub w: u32,
    pub h: u32,
}

/// One drawing instruction for the renderer: clear the whole buffer with a
/// color, or fill one rectangle with a color.
#[derive(Clone, Copy, PartialEq, Eq, Structural, Debug)]
pub enum DrawCmd {
    Clear(Rgb),
    FillRect(Rgb, ScreenRect),
}

/// The magnitude of a velocity component, as a mathematical integer.
pub open spec fn abs_val(v: int) -> int {
    if v < 0 { -v } else { v }
}

} // verus!
