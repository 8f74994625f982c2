//! Directional commands and the entity's facing.

use vstd::prelude::*;

verus! {

/// A cardinal direction, as named by an arrow key.
#[derive(Clone, Copy, Debug, PartialEq, Eq, Structural)]
pub enum Direction {
    Up,
    Down,
    Left,
    Right,
}

/// The cardinal direction the entity is oriented toward; selects the
/// sprite-sheet row of its walk cycle.
#[derive(Clone, Copy, Debug, PartialEq, Eq, Structural)]
pub enum Facing {
    Up,
    Down,
    Left,
    Right,
}

/// A discrete directional intent derived from one key press or release
/// edge, queued for application on a later tick.
#[derive(Clone, Copy, Debug, PartialEq, Eq, Structural)]
pub enum Command {
    MoveUp,
    MoveDown,
    MoveLeft,
    MoveRight,
    StopMovingUp,
    StopMovingDown,
    StopMovingLeft,
    StopMovingRight,
}

/// The command produced by a key-down edge on the given arrow key.
pub open spec fn key_down_command(d: Direction) -> Command {
    match d {
        Direction::Up => Command::MoveUp,
        Direction::Down => Command::MoveDown,
        Direction::Left => Command::MoveLeft,
        Direction::Right => Command::MoveRight,
    }
}

/// The command produced by a key-up edge on the given arrow key.
pub open spec fn key_up_command(d: Direction) -> Command {
    match d {
        Direction::Up => Command::StopMovingUp,
        Direction::Down => Command::StopMovingDown,
        Direction::Left => Command::StopMovingLeft,
        Direction::Right => Command::StopMovingRight,
    }
}

/// True of the commands that only clear an axis of motion.
pub open spec fn is_stop_command(c: Command) -> bool {
    match c {
        Command::StopMovingUp => true,
        Command::StopMovingDown => true,
        Command::StopMovingLeft => true,
        Command::StopMovingRight => true,
        _ => false,
    }
}

} // verus!
