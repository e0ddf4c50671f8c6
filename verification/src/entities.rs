//! The game entities — paddles, ball, background — with their per-frame
//! update rules and the draw commands they produce.

use vstd::prelude::*;

use crate::geom::{
    abs_val, DrawCmd, Movement, Position, Rgb, ScreenRect, BALL_SIZE, BAT_H, BAT_W, WINDOW_H,
    WINDOW_W,
};

verus! {

/// The dark blue used for paddles and the ball.
pub open spec fn entity_color() -> Rgb {
    Rgb { r: 0, g: 153, b: 204 }
}

/// The light blue the background clears the buffer with.
pub open spec fn background_color() -> Rgb {
    Rgb { r: 101, g: 208, b: 246 }
}

/// An entity that can issue its drawing instruction.  The command is a pure
/// function of the entity's state, so drawing is idempotent: any number of
/// draws without an intervening update yields the same geometry.
pub trait Renderable {
    /// The command this entity's `draw` produces, as a function of state alone.
    spec fn draw_spec(&self) -> DrawCmd;

    /// Produce the entity's drawing instruction.
    fn draw(&self) -> (r: DrawCmd)
        ensures
            r == self.draw_spec(),
    ;
}

/// A paddle: a 30x120 rectangle that moves vertically under player control.
#[derive(Clone, Copy, PartialEq, Eq, Structural, Debug)]
pub struct Player {
    pub pos: Position,
    pub mov: Movement,
}

/// A paddle heading past the top wall (`y <= 0` still moving up) or past the
/// bottom wall (`y + height > 480` still moving down) comes to a hard stop:
/// its vertical velocity is zeroed rather than reversed.
pub open spec fn player_clamps(p: Player) -> bool {
    ||| p.pos.y <= 0 && p.mov.dy < 0
    ||| p.pos.y + BAT_H > WINDOW_H && p.mov.dy > 0
}

/// The vertical velocity a paddle carries out of one update step.
pub open spec fn player_stepped_dy(p: Player) -> int {
    if player_clamps(p) {
        0
    } else {
        p.mov.dy as int
    }
}

/// The machine limits one paddle step must respect: both displaced
/// coordinates stay within `i32`.
pub open spec fn player_update_fits(p: Player) -> bool {
    &&& i32::MIN <= p.pos.x + p.mov.dx <= i32::MAX
    &&& i32::MIN <= p.pos.y + player_stepped_dy(p) <= i32::MAX
}

/// The paddle one update step produces: velocity clamped at the walls, then
/// the position displaced by the clamped velocity.
pub open spec fn player_stepped(p: Player) -> Player {
    Player {
        pos: Position {
            x: (p.pos.x + p.mov.dx) as i32,
            y: (p.pos.y + player_stepped_dy(p)) as i32,
        },
        mov: Movement { dx: p.mov.dx, dy: player_stepped_dy(p) as i32 },
    }
}

impl Player {
    /// Decide `player_update_fits` at run time, for callers outside the
    /// proof: whether one update step stays within the machine limits.
    pub fn update_fits(&self) -> (r: bool)
        ensures
            r == player_update_fits(*self),
    {
        let x = self.pos.x as i64;
        let dx = self.mov.dx as i64;
        let y = self.pos.y as i64;
        let dy_step: i64 = if (self.pos.y <= 0 && self.mov.dy < 0)
            || (self.pos.y > WINDOW_H - BAT_H && self.mov.dy > 0) {
            0
        } else {
            self.mov.dy as i64
        };
        let lo = i32::MIN as i64;
        let hi = i32::MAX as i64;
        lo <= x + dx && x + dx <= hi && lo <= y + dy_step && y + dy_step <= hi
    }

    /// Advance the paddle one step: clamp the vertical velocity at the walls,
    /// then displace the position by the velocity.
    ///
    /// The displacement is a constant step per update; the elapsed time is
    /// accepted for interface uniformity with the ball but does not scale
    /// paddle movement.
    pub fn update(&mut self, _timestep: u32)
        requires
            player_update_fits(*old(self)),
        ensures
            *final(self) == player_stepped(*old(self)),
            final(self).mov.dx == old(self).mov.dx,
            final(self).mov.dy == player_stepped_dy(*old(self)),
            final(self).pos.x == old(self).pos.x + old(self).mov.dx,
            final(self).pos.y == old(self).pos.y + player_stepped_dy(*old(self)),
    {
        if (self.pos.y <= 0 && self.mov.dy < 0)
            || (self.pos.y > WINDOW_H - BAT_H && self.mov.dy > 0)
        {
            self.mov.dy = 0;
        }
        self.pos.x = self.pos.x + self.mov.dx;
        self.pos.y = self.pos.y + self.mov.dy;
    }
}

impl Renderable for Player {
    open spec fn draw_spec(&self) -> DrawCmd {
        DrawCmd::FillRect(
            entity_color(),
            ScreenRect { x: self.pos.x, y: self.pos.y, w: BAT_W as u32, h: BAT_H as u32 },
        )
    }

    fn draw(&self) -> (r: DrawCmd) {
        DrawCmd::FillRect(
            Rgb { r: 0, g: 153, b: 204 },
            ScreenRect { x: self.pos.x, y: self.pos.y, w: 30, h: 120 },
        )
    }
}

/// The ball: a 20x20 square that moves on both axes and bounces.
#[derive(Clone, Copy, PartialEq, Eq, Structural, Debug)]
pub struct Ball {
    pub pos: Position,
    pub mov: Movement,
}

/// The ball is at the left paddle's plane moving toward it, with its
/// y-coordinate strictly inside the paddle's vertical span.
pub open spec fn ball_hits_left_bat(b: Ball, l_bat: Player) -> bool {
    &&& b.mov.dx < 0
    &&& b.pos.x <= l_bat.pos.x + BAT_W
    &&& l_bat.pos.y < b.pos.y < l_bat.pos.y + BAT_H
}

/// The ball is at the right paddle's plane moving toward it, with its
/// y-coordinate strictly inside the paddle's vertical span.
pub open spec fn ball_hits_right_bat(b: Ball, r_bat: Player) -> bool {
    &&& b.mov.dx > 0
    &&& b.pos.x + BALL_SIZE >= r_bat.pos.x
    &&& r_bat.pos.y < b.pos.y < r_bat.pos.y + BAT_H
}

/// The horizontal velocity the ball carries out of one update step against
/// two paddles: reversed on a paddle bounce, otherwise unchanged (a missed
/// ball keeps its velocity and leaves the field; scoring is out of scope).
pub open spec fn ball_stepped_dx(b: Ball, l_bat: Player, r_bat: Player) -> int {
    if ball_hits_left_bat(b, l_bat) || ball_hits_right_bat(b, r_bat) {
        -(b.mov.dx as int)
    } else {
        b.mov.dx as int
    }
}

/// The ball's leading edge has reached a side wall while moving toward it.
pub open spec fn ball_hits_side_wall(b: Ball) -> bool {
    ||| b.pos.x + BALL_SIZE >= WINDOW_W && b.mov.dx > 0
    ||| b.pos.x <= 0 && b.mov.dx < 0
}

/// The horizontal velocity after one step in the wall-bounce variant, where
/// the side walls reflect the ball instead of paddles.
pub open spec fn ball_stepped_dx_walls(b: Ball) -> int {
    if ball_hits_side_wall(b) {
        -(b.mov.dx as int)
    } else {
        b.mov.dx as int
    }
}

/// The ball's leading edge has reached the top or bottom wall while moving
/// toward it (touching counts as a collision).
pub open spec fn ball_hits_horiz_wall(b: Ball) -> bool {
    ||| b.pos.y + BALL_SIZE >= WINDOW_H && b.mov.dy > 0
    ||| b.pos.y <= 0 && b.mov.dy < 0
}

/// The vertical velocity the ball carries out of one update step: reversed
/// on a top or bottom wall bounce, otherwise unchanged.
pub open spec fn ball_stepped_dy(b: Ball) -> int {
    if ball_hits_horiz_wall(b) {
        -(b.mov.dy as int)
    } else {
        b.mov.dy as int
    }
}

/// The machine limits one ball step must respect: the velocity can be
/// negated and the time-scaled displacement keeps both coordinates within
/// `i32`, whichever way each bounce goes.
pub open spec fn ball_update_fits(b: Ball, ts: int) -> bool {
    &&& i32::MIN < b.mov.dx
    &&& i32::MIN < b.mov.dy
    &&& 0 <= ts <= i32::MAX
    &&& abs_val(b.mov.dx as int) * ts <= i32::MAX
    &&& abs_val(b.mov.dy as int) * ts <= i32::MAX
    &&& i32::MIN <= b.pos.x - abs_val(b.mov.dx as int) * ts
    &&& b.pos.x + abs_val(b.mov.dx as int) * ts <= i32::MAX
    &&& i32::MIN <= b.pos.y - abs_val(b.mov.dy as int) * ts
    &&& b.pos.y + abs_val(b.mov.dy as int) * ts <= i32::MAX
}

/// The ball one update step against two paddles produces: both bounces
/// applied to the velocity, then the position displaced by the new velocity
/// scaled by the elapsed time.
pub open spec fn ball_stepped(b: Ball, l_bat: Player, r_bat: Player, ts: int) -> Ball {
    Ball {
        pos: Position {
            x: (b.pos.x + ball_stepped_dx(b, l_bat, r_bat) * ts) as i32,
            y: (b.pos.y + ball_stepped_dy(b) * ts) as i32,
        },
        mov: Movement {
            dx: ball_stepped_dx(b, l_bat, r_bat) as i32,
            dy: ball_stepped_dy(b) as i32,
        },
    }
}

impl Ball {
    /// Decide `ball_update_fits` at run time, for callers outside the proof:
    /// whether one time-scaled update step stays within the machine limits.
    pub fn update_fits(&self, timestep: u32) -> (r: bool)
        ensures
            r == ball_update_fits(*self, timestep as int),
    {
        if self.mov.dx == i32::MIN || self.mov.dy == i32::MIN {
            return false;
        }
        if timestep > i32::MAX as u32 {
            return false;
        }
        let ts = timestep as i64;
        let adx: i64 = if self.mov.dx < 0 {
            -(self.mov.dx as i64)
        } else {
            self.mov.dx as i64
        };
        let ady: i64 = if self.mov.dy < 0 {
            -(self.mov.dy as i64)
        } else {
            self.mov.dy as i64
        };
        proof {
            assert(adx * ts < 0x4000000000000000 && ady * ts < 0x4000000000000000)
                by (nonlinear_arith)
                requires
                    0 <= adx < 0x80000000,
                    0 <= ady < 0x80000000,
                    0 <= ts < 0x80000000,
            ;
        }
        let x_step = adx * ts;
        let y_step = ady * ts;
        let x = self.pos.x as i64;
        let y = self.pos.y as i64;
        let lo = i32::MIN as i64;
        let hi = i32::MAX as i64;
        x_step <= hi && y_step <= hi && lo <= x - x_step && x + x_step <= hi
            && lo <= y - y_step && y + y_step <= hi
    }

    /// Advance the ball one step against the two paddles, in order: reverse
    /// the horizontal velocity on a paddle bounce, reverse the vertical
    /// velocity on a top or bottom wall bounce (both may apply in the same
    /// step, independently), then displace the position by the velocity
    /// scaled by the elapsed milliseconds.
    pub fn update(&mut self, timestep: u32, l_bat: &Player, r_bat: &Player)
        requires
            ball_update_fits(*old(self), timestep as int),
        ensures
            *final(self) == ball_stepped(*old(self), *l_bat, *r_bat, timestep as int),
            final(self).mov.dx == ball_stepped_dx(*old(self), *l_bat, *r_bat),
            final(self).mov.dy == ball_stepped_dy(*old(self)),
            final(self).pos.x == old(self).pos.x
                + ball_stepped_dx(*old(self), *l_bat, *r_bat) * timestep,
            final(self).pos.y == old(self).pos.y + ball_stepped_dy(*old(self)) * timestep,
    {
        let hit_left = self.mov.dx < 0
            && (self.pos.x as i64) <= (l_bat.pos.x as i64) + (BAT_W as i64)
            && (l_bat.pos.y as i64) < (self.pos.y as i64)
            && (self.pos.y as i64) < (l_bat.pos.y as i64) + (BAT_H as i64);
        let hit_right = self.mov.dx > 0
            && (self.pos.x as i64) + (BALL_SIZE as i64) >= (r_bat.pos.x as i64)
            && (r_bat.pos.y as i64) < (self.pos.y as i64)
            && (self.pos.y as i64) < (r_bat.pos.y as i64) + (BAT_H as i64);
        if hit_left || hit_right {
            self.mov.dx = -self.mov.dx;
        }
        self.bounce_off_walls_and_displace(timestep);
    }

    /// Advance the ball one step in the wall-bounce variant: all four walls
    /// reflect the ball and there are no paddles to miss.
    pub fn update_walls(&mut self, timestep: u32)
        requires
            ball_update_fits(*old(self), timestep as int),
        ensures
            final(self).mov.dx == ball_stepped_dx_walls(*old(self)),
            final(self).mov.dy == ball_stepped_dy(*old(self)),
            final(self).pos.x == old(self).pos.x + ball_stepped_dx_walls(*old(self)) * timestep,
            final(self).pos.y == old(self).pos.y + ball_stepped_dy(*old(self)) * timestep,
    {
        if (self.pos.x >= WINDOW_W - BALL_SIZE && self.mov.dx > 0)
            || (self.pos.x <= 0 && self.mov.dx < 0)
        {
            self.mov.dx = -self.mov.dx;
        }
        self.bounce_off_walls_and_displace(timestep);
    }

    /// The shared tail of both update variants: the top/bottom wall bounce
    /// followed by the time-scaled displacement.
    fn bounce_off_walls_and_displace(&mut self, timestep: u32)
        requires
            i32::MIN < old(self).mov.dy,
            0 <= timestep <= i32::MAX,
            abs_val(old(self).mov.dx as int) * timestep <= i32::MAX,
            abs_val(old(self).mov.dy as int) * timestep <= i32::MAX,
            i32::MIN <= old(self).pos.x
                - abs_val(old(self).mov.dx as int) * timestep,
            old(self).pos.x + abs_val(old(self).mov.dx as int) * timestep
                <= i32::MAX,
            i32::MIN <= old(self).pos.y
                - abs_val(old(self).mov.dy as int) * timestep,
            old(self).pos.y + abs_val(old(self).mov.dy as int) * timestep
                <= i32::MAX,
        ensures
            final(self).mov.dx == old(self).mov.dx,
            final(self).mov.dy == ball_stepped_dy(*old(self)),
            final(self).pos.x == old(self).pos.x + old(self).mov.dx * timestep,
            final(self).pos.y == old(self).pos.y + ball_stepped_dy(*old(self)) * timestep,
    {
        if (self.pos.y >= WINDOW_H - BALL_SIZE && self.mov.dy > 0)
            || (self.pos.y <= 0 && self.mov.dy < 0)
        {
            self.mov.dy = -self.mov.dy;
        }
        let ts = timestep as i32;
        proof {
            lemma_scaled_step_fits(old(self).mov.dx as int, timestep as int);
            lemma_scaled_step_fits(old(self).mov.dy as int, timestep as int);
            lemma_scaled_step_fits(self.mov.dy as int, timestep as int);
        }
        self.pos.x = self.pos.x + self.mov.dx * ts;
        self.pos.y = self.pos.y + self.mov.dy * ts;
    }
}

/// Scaling a velocity component, or its negation, by a nonnegative factor
/// never exceeds the scaled magnitude.
proof fn lemma_scaled_step_fits(v: int, ts: int) by (nonlinear_arith)
    requires
        0 <= ts,
    ensures
        v * ts <= abs_val(v) * ts,
        -(abs_val(v) * ts) <= v * ts,
        (-v) * ts == -(v * ts),
{
}

impl Renderable for Ball {
    open spec fn draw_spec(&self) -> DrawCmd {
        DrawCmd::FillRect(
            entity_color(),
            ScreenRect {
                x: self.pos.x,
                y: self.pos.y,
                w: BALL_SIZE as u32,
                h: BALL_SIZE as u32,
            },
        )
    }

    fn draw(&self) -> (r: DrawCmd) {
        DrawCmd::FillRect(
            Rgb { r: 0, g: 153, b: 204 },
            ScreenRect { x: self.pos.x, y: self.pos.y, w: 20, h: 20 },
        )
    }
}

/// The background: stateless, it only clears the buffer.
#[derive(Clone, Copy, PartialEq, Eq, Structural, Debug)]
pub struct Background;

impl Renderable for Background {
    open spec fn draw_spec(&self) -> DrawCmd {
        DrawCmd::Clear(background_color())
    }

    fn draw(&self) -> (r: DrawCmd) {
        DrawCmd::Clear(Rgb { r: 101, g: 208, b: 246 })
    }
}

} // verus!
