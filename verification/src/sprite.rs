//! The sprite-sheet layout and the frame compositor: from the entity's
//! state to the sprite-sheet source rectangle and the screen
//! destination rectangle of one draw call.

use vstd::prelude::*;
use crate::commands::Facing;
use crate::geometry::{Point, Rect};
use crate::motion::WALK_CYCLE_FRAMES;
use crate::player::Player;

verus! {

/// Number of rows on the sprite sheet: one walk cycle per facing.
pub const FACING_ROWS: i32 = 4;

/// One animation frame: an index into the loaded sprite sheets and the
/// region of that sheet to copy.
#[derive(Clone, Copy, Debug, PartialEq, Eq, Structural)]
pub struct Sprite {
    pub spritesheet: usize,
    pub region: Rect,
}

/// The sprite-sheet row holding the walk cycle of each facing. The
/// sheet is laid out down, left, right, up from the top.
pub open spec fn facing_row(f: Facing) -> i32 {
    match f {
        Facing::Down => 0,
        Facing::Left => 1,
        Facing::Right => 2,
        Facing::Up => 3,
    }
}

pub fn facing_spritesheet_row(facing: Facing) -> (r: i32)
    ensures
        r == facing_row(facing),
        0 <= r < FACING_ROWS,
{
    match facing {
        Facing::Up => 3,
        Facing::Down => 0,
        Facing::Left => 1,
        Facing::Right => 2,
    }
}

/// The sprite-sheet cell at walk-cycle column `col` of the given
/// facing's row, derived from the top-left cell of the grid.
pub open spec fn frame_region(top_left: Rect, f: Facing, col: int) -> Rect {
    Rect {
        x: (top_left.x + top_left.width * col) as i32,
        y: (top_left.y + top_left.height * facing_row(f)) as i32,
        width: top_left.width,
        height: top_left.height,
    }
}

/// The whole 4-row, 3-column frame grid stays inside coordinate range
/// when laid out from this top-left cell.
pub open spec fn frame_grid_fits(top_left: Rect) -> bool {
    &&& top_left.width <= i32::MAX
    &&& top_left.height <= i32::MAX
    &&& top_left.width * (WALK_CYCLE_FRAMES - 1) <= i32::MAX
    &&& top_left.height * (FACING_ROWS - 1) <= i32::MAX
    &&& top_left.x + top_left.width * (WALK_CYCLE_FRAMES - 1) <= i32::MAX
    &&& top_left.y + top_left.height * (FACING_ROWS - 1) <= i32::MAX
}

proof fn lemma_mul_bounds(h: int, r: int, rmax: int)
    requires
        0 <= h,
        0 <= r <= rmax,
    ensures
        0 <= h * r <= h * rmax,
{
    assert(0 <= h * r && h * r <= h * rmax) by (nonlinear_arith)
        requires
            0 <= h,
            0 <= r <= rmax,
    ;
}

/// The walk cycle of one facing: the three cells of its sprite-sheet
/// row, in column order.
pub fn character_animation_frames(
    spritesheet: usize,
    top_left_frame: Rect,
    facing: Facing,
) -> (frames: Vec<Sprite>)
    requires
        frame_grid_fits(top_left_frame),
    ensures
        frames@.len() == WALK_CYCLE_FRAMES,
        forall|k: int|
            0 <= k < frames@.len() ==> frames@[k] == (Sprite {
                spritesheet,
                region: frame_region(top_left_frame, facing, k),
            }),
{
    let frame_width: u32 = top_left_frame.width;
    let frame_height: u32 = top_left_frame.height;
    let row: i32 = facing_spritesheet_row(facing);
    proof {
        lemma_mul_bounds(frame_height as int, row as int, (FACING_ROWS - 1) as int);
    }
    let y_offset: i32 = top_left_frame.y + (frame_height as i32) * row;

    let mut frames: Vec<Sprite> = Vec::new();
    let mut i: i32 = 0;
    while i < WALK_CYCLE_FRAMES
        invariant
            frame_grid_fits(top_left_frame),
            frame_width == top_left_frame.width,
            frame_height == top_left_frame.height,
            y_offset == top_left_frame.y + top_left_frame.height * facing_row(facing),
            0 <= i <= WALK_CYCLE_FRAMES,
            frames@.len() == i,
            forall|k: int|
                0 <= k < frames@.len() ==> frames@[k] == (Sprite {
                    spritesheet,
                    region: frame_region(top_left_frame, facing, k),
                }),
        decreases WALK_CYCLE_FRAMES - i,
    {
        proof {
            lemma_mul_bounds(frame_width as int, i as int, (WALK_CYCLE_FRAMES - 1) as int);
        }
        frames.push(
            Sprite {
                spritesheet,
                region: Rect::new(
                    top_left_frame.x + (frame_width as i32) * i,
                    y_offset,
                    frame_width,
                    frame_height,
                ),
            },
        );
        i = i + 1;
    }

    frames
}

/// The sprite-sheet region the compositor copies for the entity's
/// current facing and animation frame.
pub open spec fn source_rect(p: Player) -> Rect {
    frame_region(p.sprite, p.facing, p.current_frame as int)
}

/// The screen rectangle the compositor draws into: the entity's size,
/// centered at its world position offset by half the viewport, so the
/// viewport keeps the world origin at its center.
pub open spec fn dest_rect(p: Player, viewport_width: u32, viewport_height: u32) -> Rect {
    Rect::spec_from_center(
        Point {
            x: (p.position.x + viewport_width / 2) as i32,
            y: (p.position.y + viewport_height / 2) as i32,
        },
        p.sprite.width,
        p.sprite.height,
    )
}

/// The screen-space arithmetic of the compositor stays inside
/// coordinate range for this entity and viewport.
pub open spec fn compose_fits(p: Player, viewport_width: u32, viewport_height: u32) -> bool {
    &&& p.position.x + viewport_width / 2 <= i32::MAX
    &&& p.position.y + viewport_height / 2 <= i32::MAX
    &&& i32::MIN <= p.position.x + viewport_width / 2 - p.sprite.width / 2
    &&& i32::MIN <= p.position.y + viewport_height / 2 - p.sprite.height / 2
}

/// Compose one draw call: the pair (sprite-sheet source rectangle,
/// screen destination rectangle) for the entity's current state.
pub fn compose_frame(
    player: &Player,
    viewport_width: u32,
    viewport_height: u32,
) -> (rects: (Rect, Rect))
    requires
        player.wf(),
        frame_grid_fits(player.sprite),
        compose_fits(*player, viewport_width, viewport_height),
    ensures
        rects.0 == source_rect(*player),
        rects.1 == dest_rect(*player, viewport_width, viewport_height),
{
    let frame_width: u32 = player.sprite.width;
    let frame_height: u32 = player.sprite.height;
    let row: i32 = facing_spritesheet_row(player.facing);
    proof {
        lemma_mul_bounds(frame_width as int, player.current_frame as int, (WALK_CYCLE_FRAMES - 1) as int);
        lemma_mul_bounds(frame_height as int, row as int, (FACING_ROWS - 1) as int);
    }
    let source = Rect::new(
        player.sprite.x + (frame_width as i32) * player.current_frame,
        player.sprite.y + (frame_height as i32) * row,
        frame_width,
        frame_height,
    );

    let screen_center = Point::new(
        player.position.x + (viewport_width / 2) as i32,
        player.position.y + (viewport_height / 2) as i32,
    );
    let dest = Rect::from_center(screen_center, frame_width, frame_height);

    (source, dest)
}

/// The walk cycles of all four facings, precomputed once at startup,
/// with the shared animation counter.
pub struct MovementAnimation {
    pub current_frame: usize,
    pub up_frames: Vec<Sprite>,
    pub down_frames: Vec<Sprite>,
    pub left_frames: Vec<Sprite>,
    pub right_frames: Vec<Sprite>,
}

/// `frames` is exactly the walk cycle of facing `f` on sheet
/// `spritesheet`, laid out from `top_left`.
pub open spec fn frames_match(
    frames: Seq<Sprite>,
    spritesheet: usize,
    top_left: Rect,
    f: Facing,
) -> bool {
    &&& frames.len() == WALK_CYCLE_FRAMES
    &&& forall|k: int|
        0 <= k < frames.len() ==> frames[k] == (Sprite {
            spritesheet,
            region: frame_region(top_left, f, k),
        })
}

impl MovementAnimation {
    /// The precomputed walk cycle of the given facing.
    pub open spec fn frames_for(self, f: Facing) -> Seq<Sprite> {
        match f {
            Facing::Up => self.up_frames@,
            Facing::Down => self.down_frames@,
            Facing::Left => self.left_frames@,
            Facing::Right => self.right_frames@,
        }
    }

    /// Every facing's cycle is the one the sheet layout prescribes.
    pub open spec fn wf(self, spritesheet: usize, top_left: Rect) -> bool {
        &&& frames_match(self.up_frames@, spritesheet, top_left, Facing::Up)
        &&& frames_match(self.down_frames@, spritesheet, top_left, Facing::Down)
        &&& frames_match(self.left_frames@, spritesheet, top_left, Facing::Left)
        &&& frames_match(self.right_frames@, spritesheet, top_left, Facing::Right)
    }

    /// Precompute the four walk cycles from the top-left cell of the
    /// frame grid.
    pub fn new(spritesheet: usize, top_left_frame: Rect) -> (anim: MovementAnimation)
        requires
            frame_grid_fits(top_left_frame),
        ensures
            anim.wf(spritesheet, top_left_frame),
            anim.current_frame == 0,
    {
        MovementAnimation {
            current_frame: 0,
            up_frames: character_animation_frames(spritesheet, top_left_frame, Facing::Up),
            down_frames: character_animation_frames(spritesheet, top_left_frame, Facing::Down),
            left_frames: character_animation_frames(spritesheet, top_left_frame, Facing::Left),
            right_frames: character_animation_frames(spritesheet, top_left_frame, Facing::Right),
        }
    }
}

/// The source rectangle the compositor computes live is exactly the
/// entry of the precomputed frame set at (facing, animation frame).
pub proof fn lemma_source_rect_matches_frame_set(
    p: Player,
    anim: MovementAnimation,
    spritesheet: usize,
)
    requires
        p.wf(),
        anim.wf(spritesheet, p.sprite),
    ensures
        anim.frames_for(p.facing)[p.current_frame as int].region == source_rect(p),
{
}

} // verus!
