use vstd::prelude::*;
use crate::tools::{Facing, ToolKind};

verus! {

/// What the player sprite is animating.
#[derive(Debug, Clone, Copy, PartialEq, Eq, Structural)]
pub enum PlayerAnimState {
    Idle,
    Walk,
    /// Swinging a tool: the frame shown (from 0) out of `total_frames`.
    ToolUse { tool: ToolKind, frame: u8, total_frames: u8 },
}

impl Default for PlayerAnimState {
    fn default() -> (s: Self)
        ensures
            s == PlayerAnimState::Idle,
    {
        PlayerAnimState::Idle
    }
}

/// After a frame of movement a tool swing goes on; otherwise the player
/// walks while moving and stands idle while not.
pub fn anim_state_after_move(state: PlayerAnimState, is_moving: bool) -> (r: PlayerAnimState)
    ensures
        r == match state {
            PlayerAnimState::ToolUse { .. } => state,
            _ => if is_moving { PlayerAnimState::Walk } else { PlayerAnimState::Idle },
        },
{
    match state {
        PlayerAnimState::ToolUse { .. } => state,
        _ => if is_moving { PlayerAnimState::Walk } else { PlayerAnimState::Idle },
    }
}

/// First frame of the walk cycle's row for a facing. The sheet's rows are
/// down, left, right, up, four frames each.
pub open spec fn walk_row(f: Facing) -> usize {
    match f {
        Facing::Down => 0,
        Facing::Left => 4,
        Facing::Right => 8,
        Facing::Up => 12,
    }
}

/// The walk sheet frame shown for a facing and a frame of the cycle.
pub fn walk_sheet_index(facing: Facing, frame: usize) -> (r: usize)
    requires
        frame < 4,
    ensures
        r == walk_row(facing) + frame,
{
    let base: usize = match facing {
        Facing::Down => 0,
        Facing::Left => 4,
        Facing::Right => 8,
        Facing::Up => 12,
    };
    base + frame
}

/// The walk cycle after `steps` more frames were earned by distance walked:
/// it wraps within the row's `frames_per_row` frames.
pub fn walk_frame_advance(frame: usize, frames_per_row: usize, steps: usize) -> (r: usize)
    requires
        frames_per_row > 0,
        frame < frames_per_row,
    ensures
        r == (frame + steps) % (frames_per_row as int),
        r < frames_per_row,
{
    let mut f = frame;
    let mut k: usize = 0;
    proof {
        vstd::arithmetic::div_mod::lemma_small_mod(frame as nat, frames_per_row as nat);
    }
    while k < steps
        invariant
            frames_per_row > 0,
            k <= steps,
            f < frames_per_row,
            f == (frame + k) % (frames_per_row as int),
        decreases steps - k,
    {
        proof {
            vstd::arithmetic::div_mod::lemma_add_mod_noop((frame + k) as int, 1, frames_per_row as int);
            vstd::arithmetic::div_mod::lemma_add_mod_noop((frame + k) % (frames_per_row as int), 1, frames_per_row as int);
            vstd::arithmetic::div_mod::lemma_mod_twice((frame + k) as int, frames_per_row as int);
        }
        f = (f + 1) % frames_per_row;
        k = k + 1;
    }
    f
}

/// The tool swing's impact comes once, on the first frame from the third on.
pub fn impact_due(frame: u8, impact_fired: bool) -> (r: bool)
    ensures
        r == (frame >= 2 && !impact_fired),
{
    frame >= 2 && !impact_fired
}

/// When a swing frame's time is up: the swing moves to its next frame and
/// bobs through the walk row (sheet frame returned), or, after its last
/// frame, ends in walking or standing with the row's first frame.
pub fn advance_tool_frame(tool: ToolKind, frame: u8, total_frames: u8, facing: Facing, is_moving: bool) -> (r: (PlayerAnimState, usize))
    requires
        frame < 255,
    ensures
        frame + 1 >= total_frames ==> r == (if is_moving { PlayerAnimState::Walk } else { PlayerAnimState::Idle }, walk_row(facing)),
        frame + 1 < total_frames ==> r == (PlayerAnimState::ToolUse { tool, frame: (frame + 1) as u8, total_frames },
            (walk_row(facing) + (frame + 2) % 4) as usize),
{
    let base: usize = match facing {
        Facing::Down => 0,
        Facing::Left => 4,
        Facing::Right => 8,
        Facing::Up => 12,
    };
    let new_frame = frame + 1;
    if new_frame >= total_frames {
        (if is_moving { PlayerAnimState::Walk } else { PlayerAnimState::Idle }, base)
    } else {
        let walk_frame = crate::tools::tool_bob_frame(new_frame as usize);
        (PlayerAnimState::ToolUse { tool, frame: new_frame, total_frames }, base + walk_frame)
    }
}

} // verus!
