//! The frame driver: the whole game state, the event dispatch that advances
//! it, and the pacing computation for the render loop.
//!
//! The driver is a state machine with two states, running and terminated,
//! whose single transition is taken on a quit signal.  Each idle tick
//! advances every entity in a fixed order — background, left paddle, right
//! paddle, ball — and yields the draw commands for one frame; the loop that
//! polls events, executes the commands and sleeps lives outside the library.

use vstd::prelude::*;

use crate::entities::{
    ball_stepped, ball_update_fits, player_stepped, player_update_fits, Background, Ball,
    Player, Renderable,
};
use crate::geom::{DrawCmd, Movement, Position, BAT_W, WINDOW_H, WINDOW_W};

verus! {

/// Vertical speed a key press gives the controlled paddle, in pixels per
/// update step.
pub const BAT_SPEED: i32 = 3;

/// Nominal duration of one frame in milliseconds (100 frames per second).
pub const TARGET_FRAME_MS: u32 = 10;

/// Whether the driver is still running or has seen the quit signal.
#[derive(Clone, Copy, PartialEq, Eq, Structural, Debug)]
pub enum Status {
    Running,
    Terminated,
}

/// A key the input handler distinguishes: move up, move down, or anything
/// else (ignored).
#[derive(Clone, Copy, PartialEq, Eq, Structural, Debug)]
pub enum Key {
    Up,
    Down,
    Other,
}

/// One polled event handed to the driver: a termination signal, a key press,
/// or an idle tick with no event pending.
#[derive(Clone, Copy, PartialEq, Eq, Structural, Debug)]
pub enum GameEvent {
    Quit,
    KeyDown(Key),
    Idle,
}

/// What the driver asks of its caller after one event: stop the loop, poll
/// again, or render the given commands, present the frame and pace the loop.
#[derive(PartialEq, Debug)]
pub enum FrameAction {
    Stopped,
    Handled,
    Frame(Vec<DrawCmd>),
}

/// The whole game state: two paddles at the side walls, one ball, the
/// background, and the driver's status.
#[derive(Clone, Copy, PartialEq, Eq, Structural, Debug)]
pub struct Game {
    pub status: Status,
    pub background: Background,
    pub l_bat: Player,
    pub r_bat: Player,
    pub ball: Ball,
}

/// The fixed starting state: paddles vertically centered at the left and
/// right edges and at rest, the ball centered with a unit diagonal velocity
/// (one pixel per millisecond on each axis), the driver running.
pub open spec fn initial_game() -> Game {
    Game {
        status: Status::Running,
        background: Background,
        l_bat: Player {
            pos: Position { x: 0, y: (WINDOW_H / 2 - BAT_W * 2) as i32 },
            mov: Movement { dx: 0, dy: 0 },
        },
        r_bat: Player {
            pos: Position {
                x: (WINDOW_W - BAT_W) as i32,
                y: (WINDOW_H / 2 - BAT_W * 2) as i32,
            },
            mov: Movement { dx: 0, dy: 0 },
        },
        ball: Ball {
            pos: Position { x: (WINDOW_W / 2 - 10) as i32, y: (WINDOW_H / 2 - 10) as i32 },
            mov: Movement { dx: 1, dy: 1 },
        },
    }
}

/// The state after the quit signal: only the status changes.
pub open spec fn quit_step(g: Game) -> Game {
    Game { status: Status::Terminated, ..g }
}

/// The state after a key press: an up or down key sets the left paddle's
/// vertical velocity to the fixed magnitude; any other key is ignored.
pub open spec fn key_step(g: Game, k: Key) -> Game {
    match k {
        Key::Up => (Game {
            l_bat: Player {
                mov: Movement { dy: (-BAT_SPEED) as i32, ..g.l_bat.mov },
                ..g.l_bat
            },
            ..g
        }),
        Key::Down => (Game {
            l_bat: Player { mov: Movement { dy: BAT_SPEED, ..g.l_bat.mov }, ..g.l_bat },
            ..g
        }),
        Key::Other => g,
    }
}

/// The state after one idle tick: both paddles step first, then the ball
/// steps against the already-moved paddles.
pub open spec fn idle_step(g: Game, ts: int) -> Game {
    Game {
        l_bat: player_stepped(g.l_bat),
        r_bat: player_stepped(g.r_bat),
        ball: ball_stepped(g.ball, player_stepped(g.l_bat), player_stepped(g.r_bat), ts),
        ..g
    }
}

/// Every entity's update on one idle tick stays within the machine limits.
pub open spec fn idle_step_fits(g: Game, ts: int) -> bool {
    &&& player_update_fits(g.l_bat)
    &&& player_update_fits(g.r_bat)
    &&& ball_update_fits(g.ball, ts)
}

/// The draw commands of one frame, in the fixed entity order: background
/// clear, left paddle, right paddle, ball.
pub open spec fn frame_cmds(g: Game) -> Seq<DrawCmd> {
    seq![
        g.background.draw_spec(),
        g.l_bat.draw_spec(),
        g.r_bat.draw_spec(),
        g.ball.draw_spec(),
    ]
}

/// Milliseconds to sleep at the end of a frame: half of the remainder of the
/// target frame interval, and nothing once the frame already ran long.
pub open spec fn pace_delay(target_ms: int, elapsed_ms: int) -> int {
    if elapsed_ms >= target_ms {
        0
    } else {
        (target_ms - elapsed_ms) / 2
    }
}

/// Compute the pacing sleep for one frame.  Sleeping for only half of the
/// remaining frame interval reduces jitter.
pub fn frame_delay(target_ms: u32, elapsed_ms: u32) -> (r: u32)
    ensures
        r == pace_delay(target_ms as int, elapsed_ms as int),
{
    if elapsed_ms >= target_ms {
        0
    } else {
        (target_ms - elapsed_ms) / 2
    }
}

impl Game {
    /// The starting state of a match.
    pub fn new() -> (g: Game)
        ensures
            g == initial_game(),
    {
        Game {
            status: Status::Running,
            background: Background,
            l_bat: Player { pos: Position { x: 0, y: 180 }, mov: Movement { dx: 0, dy: 0 } },
            r_bat: Player {
                pos: Position { x: 610, y: 180 },
                mov: Movement { dx: 0, dy: 0 },
            },
            ball: Ball { pos: Position { x: 310, y: 230 }, mov: Movement { dx: 1, dy: 1 } },
        }
    }

    /// Decide `idle_step_fits` at run time, for callers outside the proof:
    /// whether one idle tick over this state stays within the machine
    /// limits that `handle_event` requires.
    pub fn can_step(&self, timestep: u32) -> (r: bool)
        ensures
            r == idle_step_fits(*self, timestep as int),
    {
        self.l_bat.update_fits() && self.r_bat.update_fits() && self.ball.update_fits(
            timestep,
        )
    }

    /// Dispatch one polled event while the driver runs: a quit signal
    /// terminates the driver, a key press steers the left paddle, and an
    /// idle tick advances every entity and yields the frame's draw commands.
    pub fn handle_event(&mut self, ev: GameEvent, timestep: u32) -> (r: FrameAction)
        requires
            old(self).status == Status::Running,
            ev == GameEvent::Idle ==> idle_step_fits(*old(self), timestep as int),
        ensures
            final(self).status == if ev == GameEvent::Quit {
                Status::Terminated
            } else {
                Status::Running
            },
            ev == GameEvent::Quit ==> r == FrameAction::Stopped && *final(self) == quit_step(
                *old(self),
            ),
            ev matches GameEvent::KeyDown(k) ==> r == FrameAction::Handled && *final(self)
                == key_step(*old(self), k),
            ev == GameEvent::Idle ==> (r matches FrameAction::Frame(cmds) && *final(self)
                == idle_step(*old(self), timestep as int) && cmds@ == frame_cmds(
                *final(self),
            )),
    {
        match ev {
            GameEvent::Quit => {
                self.status = Status::Terminated;
                FrameAction::Stopped
            }
            GameEvent::KeyDown(Key::Up) => {
                self.l_bat.mov.dy = -BAT_SPEED;
                FrameAction::Handled
            }
            GameEvent::KeyDown(Key::Down) => {
                self.l_bat.mov.dy = BAT_SPEED;
                FrameAction::Handled
            }
            GameEvent::KeyDown(Key::Other) => FrameAction::Handled,
            GameEvent::Idle => {
                self.l_bat.update(timestep);
                self.r_bat.update(timestep);
                self.ball.update(timestep, &self.l_bat, &self.r_bat);
                let mut cmds: Vec<DrawCmd> = Vec::new();
                cmds.push(self.background.draw());
                cmds.push(self.l_bat.draw());
                cmds.push(self.r_bat.draw());
                cmds.push(self.ball.draw());
                proof {
                    assert(cmds@ =~= frame_cmds(*self));
                }
                FrameAction::Frame(cmds)
            }
        }
    }
}

} // verus!
