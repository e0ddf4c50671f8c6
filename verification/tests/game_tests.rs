use pong::driver::{FrameAction, Game, GameEvent, Key, Status, frame_delay};
use pong::entities::{Background, Ball, Player, Renderable};
use pong::geom::{DrawCmd, Movement, Position, Rgb, ScreenRect};

fn bat(x: i32, y: i32, dx: i32, dy: i32) -> Player {
    Player { pos: Position { x, y }, mov: Movement { dx, dy } }
}

fn ball(x: i32, y: i32, dx: i32, dy: i32) -> Ball {
    Ball { pos: Position { x, y }, mov: Movement { dx, dy } }
}

#[test]
fn ball_mid_field_moves_without_bounce() {
    let l_bat = bat(0, 180, 0, 0);
    let r_bat = bat(610, 180, 0, 0);
    let mut b = ball(310, 230, 1, 1);
    b.update(1, &l_bat, &r_bat);
    assert_eq!(b.pos, Position { x: 311, y: 231 });
    assert_eq!(b.mov, Movement { dx: 1, dy: 1 });
}

#[test]
fn ball_bounces_off_left_wall_in_wall_variant() {
    let mut b = ball(0, 230, -1, 1);
    b.update_walls(1);
    assert_eq!(b.mov, Movement { dx: 1, dy: 1 });
    assert_eq!(b.pos, Position { x: 1, y: 231 });
}

#[test]
fn ball_bounces_off_right_wall_in_wall_variant() {
    let mut b = ball(620, 230, 1, -1);
    b.update_walls(1);
    assert_eq!(b.mov, Movement { dx: -1, dy: -1 });
    assert_eq!(b.pos, Position { x: 619, y: 229 });
}

#[test]
fn ball_bounces_off_top_and_bottom_walls() {
    let mut top = ball(300, 0, 1, -2);
    top.update_walls(1);
    assert_eq!(top.mov, Movement { dx: 1, dy: 2 });
    assert_eq!(top.pos, Position { x: 301, y: 2 });

    let mut bottom = ball(300, 460, 1, 2);
    bottom.update_walls(1);
    assert_eq!(bottom.mov, Movement { dx: 1, dy: -2 });
    assert_eq!(bottom.pos, Position { x: 301, y: 458 });
}

#[test]
fn paddle_clamps_at_top_wall() {
    let mut b = bat(0, 180, 0, -4);
    for _ in 0..45 {
        b.update(1);
    }
    assert_eq!(b.pos.y, 0);
    assert_eq!(b.mov.dy, -4);
    b.update(1);
    assert_eq!(b.mov.dy, 0);
    assert_eq!(b.pos.y, 0);
}

#[test]
fn paddle_moves_freely_inside_field() {
    let mut b = bat(0, 180, 0, -4);
    b.update(1);
    assert_eq!(b.pos.y, 176);
    assert_eq!(b.mov.dy, -4);
}

#[test]
fn ball_bounces_off_left_paddle_within_span() {
    let l_bat = bat(0, 180, 0, 0);
    let r_bat = bat(610, 180, 0, 0);
    let mut b = ball(28, 200, -1, 1);
    b.update(1, &l_bat, &r_bat);
    assert_eq!(b.mov.dx, 1);
    assert_eq!(b.mov.dy, 1);
    assert_eq!(b.pos, Position { x: 29, y: 201 });
}

#[test]
fn ball_bounces_off_right_paddle_within_span() {
    let l_bat = bat(0, 180, 0, 0);
    let r_bat = bat(610, 180, 0, 0);
    let mut b = ball(595, 240, 2, 1);
    b.update(1, &l_bat, &r_bat);
    assert_eq!(b.mov.dx, -2);
    assert_eq!(b.pos.x, 593);
}

#[test]
fn missed_ball_passes_the_paddle_plane() {
    let l_bat = bat(0, 0, 0, 0);
    let r_bat = bat(610, 180, 0, 0);
    let mut b = ball(28, 200, -1, 0);
    for _ in 0..29 {
        b.update(1, &l_bat, &r_bat);
        assert_eq!(b.mov.dx, -1);
    }
    assert_eq!(b.pos.x, -1);
}

#[test]
fn ball_outside_span_boundary_is_missed() {
    let l_bat = bat(0, 200, 0, 0);
    let r_bat = bat(610, 180, 0, 0);
    let mut edge = ball(28, 200, -1, 0);
    edge.update(1, &l_bat, &r_bat);
    assert_eq!(edge.mov.dx, -1);
}

#[test]
fn corner_applies_both_bounces_in_one_step() {
    let l_bat = bat(0, 400, 0, 0);
    let r_bat = bat(610, 180, 0, 0);
    let mut b = ball(28, 460, -1, 2);
    b.update(1, &l_bat, &r_bat);
    assert_eq!(b.mov, Movement { dx: 1, dy: -2 });
    assert_eq!(b.pos, Position { x: 29, y: 458 });
}

#[test]
fn ball_update_scales_displacement_by_elapsed_time() {
    let l_bat = bat(0, 180, 0, 0);
    let r_bat = bat(610, 180, 0, 0);
    let mut b = ball(310, 230, 2, -1);
    b.update(7, &l_bat, &r_bat);
    assert_eq!(b.pos, Position { x: 324, y: 223 });
}

#[test]
fn draw_is_idempotent_without_update() {
    let b = ball(310, 230, 1, 1);
    let first = b.draw();
    let second = b.draw();
    assert_eq!(first, second);

    let p = bat(0, 180, 0, 0);
    assert_eq!(p.draw(), p.draw());
    assert_eq!(Background.draw(), Background.draw());
}

#[test]
fn entities_draw_their_rectangles_and_colors() {
    let dark_blue = Rgb { r: 0, g: 153, b: 204 };
    let p = bat(610, 40, 0, 0);
    assert_eq!(
        p.draw(),
        DrawCmd::FillRect(dark_blue, ScreenRect { x: 610, y: 40, w: 30, h: 120 })
    );
    let b = ball(12, 7, 1, 1);
    assert_eq!(
        b.draw(),
        DrawCmd::FillRect(dark_blue, ScreenRect { x: 12, y: 7, w: 20, h: 20 })
    );
    assert_eq!(
        Background.draw(),
        DrawCmd::Clear(Rgb { r: 101, g: 208, b: 246 })
    );
}

#[test]
fn new_game_starts_centered_and_running() {
    let g = Game::new();
    assert_eq!(g.status, Status::Running);
    assert_eq!(g.l_bat.pos, Position { x: 0, y: 180 });
    assert_eq!(g.r_bat.pos, Position { x: 610, y: 180 });
    assert_eq!(g.l_bat.mov, Movement { dx: 0, dy: 0 });
    assert_eq!(g.r_bat.mov, Movement { dx: 0, dy: 0 });
    assert_eq!(g.ball.pos, Position { x: 310, y: 230 });
    assert_eq!(g.ball.mov, Movement { dx: 1, dy: 1 });
}

#[test]
fn quit_event_terminates_the_driver() {
    let mut g = Game::new();
    let action = g.handle_event(GameEvent::Quit, 1);
    assert_eq!(action, FrameAction::Stopped);
    assert_eq!(g.status, Status::Terminated);
    assert_eq!(g.ball.pos, Position { x: 310, y: 230 });
}

#[test]
fn up_and_down_keys_steer_the_left_paddle() {
    let mut g = Game::new();
    assert_eq!(g.handle_event(GameEvent::KeyDown(Key::Up), 1), FrameAction::Handled);
    assert_eq!(g.l_bat.mov.dy, -3);
    assert_eq!(g.handle_event(GameEvent::KeyDown(Key::Down), 1), FrameAction::Handled);
    assert_eq!(g.l_bat.mov.dy, 3);
    assert_eq!(g.handle_event(GameEvent::KeyDown(Key::Other), 1), FrameAction::Handled);
    assert_eq!(g.l_bat.mov.dy, 3);
    assert_eq!(g.r_bat.mov.dy, 0);
    assert_eq!(g.status, Status::Running);
}

#[test]
fn idle_tick_updates_entities_and_renders_in_order() {
    let mut g = Game::new();
    g.handle_event(GameEvent::KeyDown(Key::Up), 1);
    let action = g.handle_event(GameEvent::Idle, 7);
    assert_eq!(g.l_bat.pos, Position { x: 0, y: 177 });
    assert_eq!(g.r_bat.pos, Position { x: 610, y: 180 });
    assert_eq!(g.ball.pos, Position { x: 317, y: 237 });
    let cmds = match action {
        FrameAction::Frame(cmds) => cmds,
        other => panic!("expected a frame, got {:?}", other),
    };
    assert_eq!(cmds.len(), 4);
    assert_eq!(cmds[0], DrawCmd::Clear(Rgb { r: 101, g: 208, b: 246 }));
    let dark_blue = Rgb { r: 0, g: 153, b: 204 };
    assert_eq!(
        cmds[1],
        DrawCmd::FillRect(dark_blue, ScreenRect { x: 0, y: 177, w: 30, h: 120 })
    );
    assert_eq!(
        cmds[2],
        DrawCmd::FillRect(dark_blue, ScreenRect { x: 610, y: 180, w: 30, h: 120 })
    );
    assert_eq!(
        cmds[3],
        DrawCmd::FillRect(dark_blue, ScreenRect { x: 317, y: 237, w: 20, h: 20 })
    );
}

#[test]
fn frame_delay_halves_the_remaining_interval() {
    assert_eq!(frame_delay(10, 0), 5);
    assert_eq!(frame_delay(10, 4), 3);
    assert_eq!(frame_delay(10, 9), 0);
    assert_eq!(frame_delay(10, 10), 0);
    assert_eq!(frame_delay(10, 25), 0);
}
