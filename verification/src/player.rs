//! The controllable entity: its state record and the per-tick update
//! that drains one command, resolves velocity, facing and animation,
//! and integrates position.

use vstd::prelude::*;
use std::collections::VecDeque;
use crate::commands::{Command, Facing};
use crate::geometry::{Point, Rect};
use crate::motion::{
    axis_exclusive, facing_after, frame_after, vel_after_opt, PLAYER_MOVEMENT_SPEED,
    WALK_CYCLE_FRAMES,
};

verus! {

/// The single controllable entity.
///
/// `sprite` is the top-left cell of its walk cycle on the sprite sheet;
/// the compositor derives the other cells from it.
pub struct Player {
    pub position: Point,
    pub sprite: Rect,
    pub speed_x: i32,
    pub speed_y: i32,
    pub facing: Facing,
    pub current_frame: i32,
    pub command_queue: VecDeque<Command>,
}

/// True when `a` and `b` agree on everything except the command queue.
pub open spec fn same_entity_state(a: Player, b: Player) -> bool {
    &&& a.position == b.position
    &&& a.sprite == b.sprite
    &&& a.speed_x == b.speed_x
    &&& a.speed_y == b.speed_y
    &&& a.facing == b.facing
    &&& a.current_frame == b.current_frame
}

/// Relation between an entity state before a tick, the queue contents
/// the tick starts from, and the state after the tick: the oldest
/// queued command (if any) is consumed and applied to velocity, facing
/// follows the new velocity, the animation frame advances exactly when
/// the new velocity is non-zero, and the new velocity is integrated
/// into the position.
pub open spec fn post_tick_from_queue(pre: Player, q: Seq<Command>, post: Player) -> bool {
    let popped = if q.len() > 0 {
        Some(q[0])
    } else {
        None::<Command>
    };
    let v = vel_after_opt(pre.speed_x, pre.speed_y, popped);
    &&& post.command_queue@ == (if q.len() > 0 {
        q.drop_first()
    } else {
        q
    })
    &&& post.speed_x == v.0
    &&& post.speed_y == v.1
    &&& post.facing == facing_after(pre.facing, v.0, v.1)
    &&& post.current_frame == frame_after(pre.current_frame, v.0, v.1)
    &&& post.position == pre.position.spec_offset(v.0, v.1)
    &&& post.sprite == pre.sprite
}

impl Player {
    /// Entity invariant: at most one axis of motion is active, and the
    /// animation frame stays inside the walk cycle.
    pub open spec fn wf(self) -> bool {
        &&& axis_exclusive(self.speed_x, self.speed_y)
        &&& 0 <= self.current_frame < WALK_CYCLE_FRAMES
    }

    /// The command the next tick will consume, if any.
    pub open spec fn pending_command(self) -> Option<Command> {
        if self.command_queue@.len() > 0 {
            Some(self.command_queue@[0])
        } else {
            None
        }
    }

    /// A freshly created entity: at the world origin, at rest, facing
    /// down, on the first walk-cycle frame, with nothing queued.
    pub fn new(sprite: Rect) -> (p: Player)
        ensures
            p.wf(),
            p.position == (Point { x: 0, y: 0 }),
            p.sprite == sprite,
            p.speed_x == 0,
            p.speed_y == 0,
            p.facing == Facing::Down,
            p.current_frame == 0,
            p.command_queue@ == Seq::<Command>::empty(),
    {
        let p = Player {
            position: Point { x: 0, y: 0 },
            sprite,
            speed_x: 0,
            speed_y: 0,
            facing: Facing::Down,
            current_frame: 0,
            command_queue: VecDeque::new(),
        };
        proof {
            assert(p.command_queue@ =~= Seq::<Command>::empty());
        }
        p
    }

    /// Append one command at the tail of the queue; nothing else moves.
    pub fn push_command(&mut self, c: Command)
        ensures
            final(self).command_queue@ == old(self).command_queue@.push(c),
            same_entity_state(*old(self), *final(self)),
    {
        self.command_queue.push_back(c);
    }

    /// Remove and return the oldest queued command; on an empty queue
    /// return nothing and change nothing.
    pub fn pop_command(&mut self) -> (c: Option<Command>)
        ensures
            c == old(self).pending_command(),
            final(self).command_queue@ == (if old(self).command_queue@.len() > 0 {
                old(self).command_queue@.drop_first()
            } else {
                old(self).command_queue@
            }),
            same_entity_state(*old(self), *final(self)),
    {
        self.command_queue.pop_front()
    }

    /// Set `facing` from the current velocity: positive vertical motion
    /// faces down, negative faces up; otherwise positive horizontal
    /// motion faces right, negative faces left; at rest the previous
    /// facing persists.
    pub fn update_facing(&mut self)
        ensures
            final(self).facing == facing_after(old(self).facing, old(self).speed_x, old(self).speed_y),
            final(self).position == old(self).position,
            final(self).sprite == old(self).sprite,
            final(self).speed_x == old(self).speed_x,
            final(self).speed_y == old(self).speed_y,
            final(self).current_frame == old(self).current_frame,
            final(self).command_queue == old(self).command_queue,
    {
        if self.speed_y > 0 {
            self.facing = Facing::Down;
        } else if self.speed_y < 0 {
            self.facing = Facing::Up;
        } else if self.speed_x > 0 {
            self.facing = Facing::Right;
        } else if self.speed_x < 0 {
            self.facing = Facing::Left;
        }
    }

    /// Run one tick of the entity state machine: pop at most one
    /// command, apply it to velocity, resolve facing, advance the
    /// animation frame if moving, and integrate position.
    pub fn update_player(&mut self)
        requires
            old(self).wf(),
        ensures
            final(self).wf(),
            post_tick_from_queue(*old(self), old(self).command_queue@, *final(self)),
    {
        match self.pop_command() {
            Some(Command::MoveUp) => {
                self.speed_y = self.speed_y.wrapping_sub(PLAYER_MOVEMENT_SPEED);
                self.speed_x = 0;
            },
            Some(Command::MoveDown) => {
                self.speed_y = self.speed_y.wrapping_add(PLAYER_MOVEMENT_SPEED);
                self.speed_x = 0;
            },
            Some(Command::MoveLeft) => {
                self.speed_x = self.speed_x.wrapping_sub(PLAYER_MOVEMENT_SPEED);
                self.speed_y = 0;
            },
            Some(Command::MoveRight) => {
                self.speed_x = self.speed_x.wrapping_add(PLAYER_MOVEMENT_SPEED);
                self.speed_y = 0;
            },
            Some(Command::StopMovingUp) => {
                self.speed_y = 0;
            },
            Some(Command::StopMovingDown) => {
                self.speed_y = 0;
            },
            Some(Command::StopMovingLeft) => {
                self.speed_x = 0;
            },
            Some(Command::StopMovingRight) => {
                self.speed_x = 0;
            },
            None => {},
        }

        self.update_facing();

        if !(self.speed_x == 0 && self.speed_y == 0) {
            self.current_frame = (self.current_frame + 1) % WALK_CYCLE_FRAMES;
        }

        self.position = self.position.offset(self.speed_x, self.speed_y);
    }
}

} // verus!
