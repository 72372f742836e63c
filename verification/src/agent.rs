//! Shared agent vocabulary: facing directions, movement actions, the
//! per-entity character state, sprite-sheet animation data, and the pure
//! kernels behind sprite-frame stepping and keyboard direction resolution.

use vstd::prelude::*;

verus! {

/// One of 8 compass facings. The declaration order fixes each facing's
/// sprite-sheet row (`sprite_row`).
#[derive(Clone, Copy, PartialEq, Eq, Structural, Debug)]
pub enum Direction {
    W,
    NW,
    N,
    NE,
    E,
    SE,
    S,
    SW,
}

impl Default for Direction {
    fn default() -> (d: Direction)
        ensures
            d == Direction::W,
    {
        Direction::W
    }
}

/// What an agent is doing this tick.
#[derive(Clone, Copy, PartialEq, Eq, Structural, Debug)]
pub enum Action {
    Running,
    Attacking,
    Idle,
}

impl Default for Action {
    fn default() -> (a: Action)
        ensures
            a == Action::Running,
    {
        Action::Running
    }
}

/// The movement state every visible agent owns; written once per tick by
/// exactly one authority (the input handler for the human, the NPC
/// controller for AI agents).
#[derive(Clone, Copy, PartialEq, Eq, Structural, Debug)]
pub struct CharacterState {
    pub action: Action,
    pub direction: Direction,
}

/// Marker for the one human-controlled agent.
pub struct HumanController;

/// A broadcast player speech event: every agent observes every shout.
#[derive(Clone, PartialEq, Eq, Debug)]
pub struct Shout {
    pub message: String,
}

/// First and last frame of one animation row within a sprite sheet.
#[derive(Clone, Copy, PartialEq, Eq, Structural, Debug)]
pub struct AnimationIndices {
    pub first: usize,
    pub last: usize,
}

/// The three animation rows an agent cycles through, keyed by `Action`.
#[derive(Clone, Copy, PartialEq, Eq, Structural, Debug)]
pub struct AnimationSet {
    pub running: AnimationIndices,
    pub idle: AnimationIndices,
    pub hit: AnimationIndices,
}

/// The animation rows of the stock skeleton sprite sheet.
pub fn skeleton_animation_set() -> (s: AnimationSet)
    ensures
        s.running == (AnimationIndices { first: 4, last: 11 }),
        s.idle == (AnimationIndices { first: 0, last: 3 }),
        s.hit == (AnimationIndices { first: 12, last: 15 }),
{
    AnimationSet {
        running: AnimationIndices { first: 4, last: 11 },
        idle: AnimationIndices { first: 0, last: 3 },
        hit: AnimationIndices { first: 12, last: 15 },
    }
}

/// Each facing's row offset within a sprite sheet, following the
/// declaration order of `Direction`.
pub open spec fn spec_sprite_row(d: Direction) -> int {
    match d {
        Direction::W => 0,
        Direction::NW => 1,
        Direction::N => 2,
        Direction::NE => 3,
        Direction::E => 4,
        Direction::SE => 5,
        Direction::S => 6,
        Direction::SW => 7,
    }
}

impl Direction {
    /// The sprite-sheet row this facing selects.
    pub fn sprite_row(&self) -> (r: usize)
        ensures
            r as int == spec_sprite_row(*self),
            r <= 7,
    {
        match self {
            Direction::W => 0,
            Direction::NW => 1,
            Direction::N => 2,
            Direction::NE => 3,
            Direction::E => 4,
            Direction::SE => 5,
            Direction::S => 6,
            Direction::SW => 7,
        }
    }
}

/// The animation row an action selects.
pub open spec fn spec_animation_indices(set: AnimationSet, action: Action) -> AnimationIndices {
    match action {
        Action::Running => set.running,
        Action::Idle => set.idle,
        Action::Attacking => set.hit,
    }
}

/// An animation set whose rows are ordered and leave room for the largest
/// facing offset (7 rows of 24 frames).
pub open spec fn wf_animation_set(set: AnimationSet) -> bool {
    &&& set.running.first <= set.running.last
    &&& set.idle.first <= set.idle.last
    &&& set.hit.first <= set.hit.last
    &&& set.running.last + 168 <= usize::MAX
    &&& set.idle.last + 168 <= usize::MAX
    &&& set.hit.last + 168 <= usize::MAX
}

/// Advances a sprite one animation frame: within the row selected by the
/// agent's action and facing, steps to the next frame, and wraps to the
/// row's first frame whenever the current frame lies outside the row.
pub fn advance_frame(set: &AnimationSet, state: &CharacterState, current: usize) -> (r: usize)
    requires
        wf_animation_set(*set),
    ensures
        ({
            let indices = spec_animation_indices(*set, state.action);
            let offset = spec_sprite_row(state.direction) * 24;
            let first = indices.first + offset;
            let last = indices.last + offset;
            r == if current >= last || current < first {
                first
            } else {
                current + 1
            }
        }),
{
    let indices = match state.action {
        Action::Running => set.running,
        Action::Idle => set.idle,
        Action::Attacking => set.hit,
    };

    let offset = state.direction.sprite_row() * 24;
    let first = indices.first + offset;
    let last = indices.last + offset;

    if current >= last || current < first {
        first
    } else {
        current + 1
    }
}

/// The facing a combination of pressed movement keys resolves to, over a
/// bitmask with west = 1, east = 2, north = 4, south = 8. Unresolvable
/// combinations (none, or opposing keys) give `None`.
pub open spec fn spec_keyboard_direction(mask: u8) -> Option<Direction> {
    if mask == 0x01 {
        Some(Direction::W)
    } else if mask == 0x02 {
        Some(Direction::E)
    } else if mask == 0x04 {
        Some(Direction::N)
    } else if mask == 0x08 {
        Some(Direction::S)
    } else if mask == 0x05 {
        Some(Direction::NW)
    } else if mask == 0x06 {
        Some(Direction::NE)
    } else if mask == 0x09 {
        Some(Direction::SW)
    } else if mask == 0x0a {
        Some(Direction::SE)
    } else {
        None
    }
}

/// Resolves pressed movement keys to a facing; the mask has west = 1,
/// east = 2, north = 4, south = 8.
pub fn keyboard_to_direction(mask: u8) -> (r: Option<Direction>)
    ensures
        r == spec_keyboard_direction(mask),
{
    match mask {
        0x01 => Some(Direction::W),
        0x02 => Some(Direction::E),
        0x04 => Some(Direction::N),
        0x08 => Some(Direction::S),
        0x05 => Some(Direction::NW),
        0x06 => Some(Direction::NE),
        0x09 => Some(Direction::SW),
        0x0a => Some(Direction::SE),
        _ => None,
    }
}

} // verus!
