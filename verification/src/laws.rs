//! The laws the entity step rules obey, stated and proved over the step
//! spec functions that the executable updates are pinned to.

use vstd::prelude::*;

use crate::driver::{idle_step, key_step, quit_step, Game, Key};
use crate::entities::{
    ball_hits_horiz_wall, ball_hits_left_bat, ball_hits_right_bat, ball_stepped_dx,
    ball_stepped_dy, player_stepped, Ball, Player, Renderable,
};
use crate::geom::{abs_val, BAT_H, WINDOW_H};

verus! {

/// Wall-clamp invariant: a paddle standing inside the field stays inside it
/// across an update, provided the step either lands inside the field or is
/// one the clamp stops.  The clamp stops an upward step only from the top
/// wall itself and never stops the step that first crosses the bottom wall,
/// so a step that would overshoot from strictly inside the field is left
/// out: it does leave the field.
pub proof fn lemma_paddle_stays_in_bounds(p: Player)
    requires
        0 <= p.pos.y <= WINDOW_H - BAT_H,
        p.mov.dy < 0 ==> p.pos.y == 0 || 0 <= p.pos.y + p.mov.dy,
        p.mov.dy > 0 ==> p.pos.y + p.mov.dy <= WINDOW_H - BAT_H,
    ensures
        0 <= player_stepped(p).pos.y <= WINDOW_H - BAT_H,
{
}

/// A vertical-wall bounce flips the sign of the ball's vertical velocity and
/// keeps its magnitude.
pub proof fn lemma_wall_bounce_flips_dy(b: Ball)
    requires
        ball_hits_horiz_wall(b),
    ensures
        ball_stepped_dy(b) == -(b.mov.dy as int),
        abs_val(ball_stepped_dy(b)) == abs_val(b.mov.dy as int),
        b.mov.dy > 0 ==> ball_stepped_dy(b) < 0,
        b.mov.dy < 0 ==> ball_stepped_dy(b) > 0,
{
}

/// A paddle bounce flips the sign of the ball's horizontal velocity and
/// keeps its magnitude.
pub proof fn lemma_paddle_bounce_flips_dx(b: Ball, l_bat: Player, r_bat: Player)
    requires
        ball_hits_left_bat(b, l_bat) || ball_hits_right_bat(b, r_bat),
    ensures
        ball_stepped_dx(b, l_bat, r_bat) == -(b.mov.dx as int),
        abs_val(ball_stepped_dx(b, l_bat, r_bat)) == abs_val(b.mov.dx as int),
        b.mov.dx > 0 ==> ball_stepped_dx(b, l_bat, r_bat) < 0,
        b.mov.dx < 0 ==> ball_stepped_dx(b, l_bat, r_bat) > 0,
{
}

/// A ball whose y-coordinate is outside the vertical span of the paddle it
/// moves toward is missed: its horizontal velocity is unchanged, whether or
/// not it has reached that paddle's x-plane.
pub proof fn lemma_missed_ball_keeps_dx(b: Ball, l_bat: Player, r_bat: Player)
    requires
        b.mov.dx < 0 ==> !(l_bat.pos.y < b.pos.y < l_bat.pos.y + BAT_H),
        b.mov.dx > 0 ==> !(r_bat.pos.y < b.pos.y < r_bat.pos.y + BAT_H),
    ensures
        ball_stepped_dx(b, l_bat, r_bat) == b.mov.dx,
{
}

/// Paddles move vertically only: a paddle at rest horizontally keeps its
/// x-coordinate across every event the driver dispatches, and no event
/// gives it a horizontal velocity.
pub proof fn lemma_paddles_keep_their_wall(g: Game, ts: int)
    requires
        g.l_bat.mov.dx == 0,
        g.r_bat.mov.dx == 0,
    ensures
        quit_step(g).l_bat == g.l_bat && quit_step(g).r_bat == g.r_bat,
        forall|k: Key|
            (#[trigger] key_step(g, k)).l_bat.pos.x == g.l_bat.pos.x && key_step(
                g,
                k,
            ).l_bat.mov.dx == 0 && key_step(g, k).r_bat == g.r_bat,
        idle_step(g, ts).l_bat.pos.x == g.l_bat.pos.x && idle_step(g, ts).l_bat.mov.dx == 0,
        idle_step(g, ts).r_bat.pos.x == g.r_bat.pos.x && idle_step(g, ts).r_bat.mov.dx == 0,
{
}

/// Drawing is idempotent: the draw command is a function of the entity's
/// state alone, so repeated draws without an intervening update produce the
/// same geometry.
pub proof fn lemma_draw_idempotent<T: Renderable>(a: T, b: T)
    requires
        a == b,
    ensures
        a.draw_spec() == b.draw_spec(),
{
}

} // verus!
