//! Global properties of the motion state machine, stated and proved
//! over the spec functions that the executable contracts use.

use vstd::prelude::*;
use crate::commands::{is_stop_command, Command, Facing};
use crate::motion::{axis_exclusive, facing_after, frame_after, vel_after, WALK_CYCLE_FRAMES};

verus! {

/// Velocity after applying a whole sequence of commands in order, one
/// per tick.
pub open spec fn vel_after_seq(vx: i32, vy: i32, cmds: Seq<Command>) -> (i32, i32)
    decreases cmds.len(),
{
    if cmds.len() == 0 {
        (vx, vy)
    } else {
        let v = vel_after(vx, vy, cmds[0]);
        vel_after_seq(v.0, v.1, cmds.drop_first())
    }
}

/// Axis exclusivity is an invariant of command resolution: starting
/// from any velocity with at most one active axis, every sequence of
/// Move and Stop commands leaves at most one axis active.
pub proof fn lemma_axis_exclusivity(vx: i32, vy: i32, cmds: Seq<Command>)
    requires
        axis_exclusive(vx, vy),
    ensures
        axis_exclusive(vel_after_seq(vx, vy, cmds).0, vel_after_seq(vx, vy, cmds).1),
    decreases cmds.len(),
{
    if cmds.len() > 0 {
        let v = vel_after(vx, vy, cmds[0]);
        lemma_axis_exclusivity(v.0, v.1, cmds.drop_first());
    }
}

/// Stop commands are idempotent: applying the same Stop command a
/// second time leaves the velocity the first application produced.
pub proof fn lemma_stop_idempotent(vx: i32, vy: i32, c: Command)
    requires
        is_stop_command(c),
    ensures
        ({
            let v = vel_after(vx, vy, c);
            vel_after(v.0, v.1, c) == v
        }),
{
}

/// Facing follows the last active axis and is never overwritten while
/// at rest: leftward motion always faces left, rightward motion always
/// faces right, and zero velocity keeps the previous facing, whatever
/// history produced it.
pub proof fn lemma_facing_priority(f: Facing, vx: i32)
    ensures
        vx < 0 ==> facing_after(f, vx, 0) == Facing::Left,
        vx > 0 ==> facing_after(f, vx, 0) == Facing::Right,
        facing_after(f, 0, 0) == f,
{
}

/// The animation frame advances cyclically exactly on ticks with
/// non-zero velocity, and freezes — without resetting — at rest.
pub proof fn lemma_frame_advance(frame: i32, vx: i32, vy: i32)
    ensures
        vx == 0 && vy == 0 ==> frame_after(frame, vx, vy) == frame,
        !(vx == 0 && vy == 0) ==> frame_after(frame, vx, vy) == ((frame + 1) % (
        WALK_CYCLE_FRAMES as int)) as i32,
        0 <= frame < WALK_CYCLE_FRAMES ==> 0 <= frame_after(frame, vx, vy) < WALK_CYCLE_FRAMES,
{
}

/// Round trip from rest: a MoveRight tick followed by a
/// StopMovingRight tick returns the velocity to zero and leaves the
/// entity facing right, whatever it faced before.
pub proof fn lemma_move_stop_round_trip(f: Facing)
    ensures
        ({
            let v1 = vel_after(0, 0, Command::MoveRight);
            let f1 = facing_after(f, v1.0, v1.1);
            let v2 = vel_after(v1.0, v1.1, Command::StopMovingRight);
            let f2 = facing_after(f1, v2.0, v2.1);
            v2.0 == 0 && v2.1 == 0 && f2 == Facing::Right
        }),
{
}

} // verus!
