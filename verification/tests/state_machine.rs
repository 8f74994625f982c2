use bardo::commands::{Command, Direction, Facing};
use bardo::events::{advance_tick, process_events, InputEvent};
use bardo::geometry::{Point, Rect};
use bardo::player::Player;

fn fresh_player() -> Player {
    Player::new(Rect::new(0, 0, 26, 36))
}

fn tick(p: &mut Player, cmd: Option<Command>) {
    if let Some(c) = cmd {
        p.push_command(c);
    }
    p.update_player();
}

#[test]
fn initial_state() {
    let p = fresh_player();
    assert_eq!(p.position, Point { x: 0, y: 0 });
    assert_eq!(p.speed_x, 0);
    assert_eq!(p.speed_y, 0);
    assert_eq!(p.facing, Facing::Down);
    assert_eq!(p.current_frame, 0);
    assert!(p.command_queue.is_empty());
}

#[test]
fn pop_returns_oldest_or_nothing() {
    let mut p = fresh_player();
    assert_eq!(p.pop_command(), None);
    p.push_command(Command::MoveUp);
    p.push_command(Command::MoveDown);
    assert_eq!(p.pop_command(), Some(Command::MoveUp));
    assert_eq!(p.pop_command(), Some(Command::MoveDown));
    assert_eq!(p.pop_command(), None);
}

#[test]
fn axis_exclusive_after_every_tick() {
    let cmds = vec![
        Command::MoveUp,
        Command::MoveLeft,
        Command::MoveLeft,
        Command::StopMovingUp,
        Command::MoveDown,
        Command::MoveRight,
        Command::StopMovingRight,
        Command::MoveUp,
        Command::StopMovingDown,
        Command::MoveRight,
    ];
    let mut p = fresh_player();
    for c in cmds {
        tick(&mut p, Some(c));
        assert!(p.speed_x == 0 || p.speed_y == 0);
    }
}

#[test]
fn stop_twice_is_stop_once() {
    let mut p = fresh_player();
    tick(&mut p, Some(Command::MoveRight));
    tick(&mut p, Some(Command::StopMovingRight));
    let (vx, vy) = (p.speed_x, p.speed_y);
    tick(&mut p, Some(Command::StopMovingRight));
    assert_eq!((p.speed_x, p.speed_y), (vx, vy));
    assert_eq!((vx, vy), (0, 0));
}

#[test]
fn facing_left_after_vertical_history() {
    let mut p = fresh_player();
    tick(&mut p, Some(Command::MoveDown));
    assert_eq!((p.speed_x, p.speed_y), (0, 20));
    tick(&mut p, Some(Command::StopMovingDown));
    // zero velocity never overwrites facing
    assert_eq!(p.facing, Facing::Down);
    tick(&mut p, Some(Command::MoveLeft));
    assert_eq!((p.speed_x, p.speed_y), (-20, 0));
    assert_eq!(p.facing, Facing::Left);
}

#[test]
fn frames_advance_only_while_moving() {
    let mut p = fresh_player();
    let mut frames = Vec::new();
    tick(&mut p, Some(Command::MoveRight));
    frames.push(p.current_frame);
    for _ in 0..4 {
        tick(&mut p, None);
        frames.push(p.current_frame);
    }
    assert_eq!(frames, vec![1, 2, 0, 1, 2]);

    // frozen, not reset, while at rest
    tick(&mut p, Some(Command::StopMovingRight));
    let frozen = p.current_frame;
    tick(&mut p, None);
    assert_eq!(p.current_frame, frozen);
}

#[test]
fn move_right_stop_right_round_trip() {
    let mut p = fresh_player();
    tick(&mut p, Some(Command::MoveRight));
    tick(&mut p, Some(Command::StopMovingRight));
    assert_eq!((p.speed_x, p.speed_y), (0, 0));
    assert_eq!(p.facing, Facing::Right);
}

#[test]
fn scenario_down_then_right() {
    let mut p = fresh_player();
    p.push_command(Command::MoveDown);
    p.push_command(Command::MoveRight);

    p.update_player();
    assert_eq!((p.speed_x, p.speed_y), (0, 20));
    assert_eq!(p.facing, Facing::Down);
    assert_eq!(p.current_frame, 1);

    p.update_player();
    assert_eq!((p.speed_x, p.speed_y), (20, 0));
    assert_eq!(p.facing, Facing::Right);
    assert_eq!(p.current_frame, 2);
}

#[test]
fn one_command_per_tick_in_queue_order() {
    let mut p = fresh_player();
    p.push_command(Command::MoveUp);
    p.push_command(Command::MoveRight);
    p.update_player();
    // only the oldest command was applied; the other is deferred
    assert_eq!((p.speed_x, p.speed_y), (0, -20));
    assert_eq!(p.command_queue.len(), 1);
    p.update_player();
    assert_eq!((p.speed_x, p.speed_y), (20, 0));
    assert!(p.command_queue.is_empty());
}

#[test]
fn empty_queue_tick_keeps_motion_and_integrates() {
    let mut p = fresh_player();
    tick(&mut p, Some(Command::MoveDown));
    let pos_before = p.position;
    tick(&mut p, None);
    assert_eq!((p.speed_x, p.speed_y), (0, 20));
    assert_eq!(p.facing, Facing::Down);
    assert_eq!(p.position, Point { x: pos_before.x, y: pos_before.y + 20 });
}

#[test]
fn releasing_inactive_axis_key_stops_motion() {
    // inherited quirk: a Stop names an axis, not a key, so releasing a
    // horizontal key while moving horizontally under the other key's
    // command still zeroes the axis
    let mut p = fresh_player();
    tick(&mut p, Some(Command::MoveLeft));
    assert_eq!((p.speed_x, p.speed_y), (-20, 0));
    tick(&mut p, Some(Command::StopMovingRight));
    assert_eq!((p.speed_x, p.speed_y), (0, 0));
}

#[test]
fn move_commands_accumulate_and_zero_other_axis() {
    let mut p = fresh_player();
    tick(&mut p, Some(Command::MoveUp));
    tick(&mut p, Some(Command::MoveUp));
    assert_eq!((p.speed_x, p.speed_y), (0, -40));
    tick(&mut p, Some(Command::MoveRight));
    assert_eq!((p.speed_x, p.speed_y), (20, 0));
}

#[test]
fn events_translate_in_order() {
    let mut p = fresh_player();
    let events = vec![
        InputEvent::KeyDown(Direction::Left),
        InputEvent::KeyUp(Direction::Left),
        InputEvent::KeyDown(Direction::Up),
    ];
    let quit = process_events(&mut p, &events);
    assert!(!quit);
    let queued: Vec<Command> = p.command_queue.iter().copied().collect();
    assert_eq!(
        queued,
        vec![Command::MoveLeft, Command::StopMovingLeft, Command::MoveUp]
    );
}

#[test]
fn quit_halts_processing() {
    let mut p = fresh_player();
    let events = vec![
        InputEvent::KeyDown(Direction::Left),
        InputEvent::Quit,
        InputEvent::KeyDown(Direction::Right),
    ];
    let quit = process_events(&mut p, &events);
    assert!(quit);
    // nothing after the quit was enqueued
    let queued: Vec<Command> = p.command_queue.iter().copied().collect();
    assert_eq!(queued, vec![Command::MoveLeft]);
}

#[test]
fn quit_tick_leaves_state_untouched() {
    let mut p = fresh_player();
    let quit = advance_tick(&mut p, &vec![InputEvent::KeyDown(Direction::Right)]);
    assert!(!quit);
    let (pos, vx, vy, facing, frame) = (p.position, p.speed_x, p.speed_y, p.facing, p.current_frame);

    let quit = advance_tick(&mut p, &vec![InputEvent::Quit]);
    assert!(quit);
    assert_eq!(p.position, pos);
    assert_eq!((p.speed_x, p.speed_y), (vx, vy));
    assert_eq!(p.facing, facing);
    assert_eq!(p.current_frame, frame);
}
