//! The motion, facing and animation rules: pure functions from the
//! entity's current state and one optional command to its next state.

use vstd::prelude::*;
use crate::commands::{Command, Facing};
use vstd::wrapping::i32_specs;

verus! {

/// Velocity change applied by one Move command, in world units per tick.
pub const PLAYER_MOVEMENT_SPEED: i32 = 20;

/// Number of frames in the walk cycle (one sprite-sheet row holds this
/// many columns).
pub const WALK_CYCLE_FRAMES: i32 = 3;

/// Axis exclusivity: horizontal and vertical velocity are never
/// simultaneously non-zero.
pub open spec fn axis_exclusive(vx: i32, vy: i32) -> bool {
    vx == 0 || vy == 0
}

/// Velocity `(vx, vy)` after applying one command.
///
/// A Move command steps its own axis by `PLAYER_MOVEMENT_SPEED` and
/// zeroes the other axis; a Stop command zeroes the axis it names and
/// leaves the other alone, whether or not that axis was the one in
/// motion. The stepped axis wraps on `i32` overflow.
///
/// Open question, preserved deliberately: because a Stop names an
/// axis rather than a key, releasing a key for the axis the entity is
/// currently moving on — even if that motion came from the opposite
/// key — zeroes the axis and can stop legitimate motion when two
/// opposite keys are released in a non-matching order.
pub open spec fn vel_after(vx: i32, vy: i32, c: Command) -> (i32, i32) {
    match c {
        Command::MoveUp => (0, i32_specs::wrapping_sub(vy, PLAYER_MOVEMENT_SPEED)),
        Command::MoveDown => (0, i32_specs::wrapping_add(vy, PLAYER_MOVEMENT_SPEED)),
        Command::MoveLeft => (i32_specs::wrapping_sub(vx, PLAYER_MOVEMENT_SPEED), 0),
        Command::MoveRight => (i32_specs::wrapping_add(vx, PLAYER_MOVEMENT_SPEED), 0),
        Command::StopMovingUp => (vx, 0),
        Command::StopMovingDown => (vx, 0),
        Command::StopMovingLeft => (0, vy),
        Command::StopMovingRight => (0, vy),
    }
}

/// Velocity after a tick that popped `c` from the queue; a tick with an
/// empty queue leaves velocity unchanged.
pub open spec fn vel_after_opt(vx: i32, vy: i32, c: Option<Command>) -> (i32, i32) {
    match c {
        Some(cmd) => vel_after(vx, vy, cmd),
        None => (vx, vy),
    }
}

/// Facing derived from the velocity after resolution, with the fixed
/// tie-break priority Down, Up, Right, Left; zero velocity leaves the
/// previous facing in place.
pub open spec fn facing_after(f: Facing, vx: i32, vy: i32) -> Facing {
    if vy > 0 {
        Facing::Down
    } else if vy < 0 {
        Facing::Up
    } else if vx > 0 {
        Facing::Right
    } else if vx < 0 {
        Facing::Left
    } else {
        f
    }
}

/// Animation frame after one tick: it advances cyclically through the
/// walk cycle exactly when the velocity after resolution is non-zero.
pub open spec fn frame_after(frame: i32, vx: i32, vy: i32) -> i32 {
    if vx == 0 && vy == 0 {
        frame
    } else {
        ((frame + 1) % (WALK_CYCLE_FRAMES as int)) as i32
    }
}

} // verus!
