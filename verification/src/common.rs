//! Components shared by every entity kind: facing direction with its sprite
//! mappings, animation timers and frame ranges, and the generic frame-advance
//! driver.

use crate::timer::{Timer, MAX_TICK_MS};
use vstd::prelude::*;

verus! {

/// Top-level screens of the game.
#[derive(Debug, Clone, PartialEq, Eq, Hash, Structural)]
pub enum AppState {
    Splash,
    StartMenu,
    Playing,
    Paused,
    GameOver,
}

impl Default for AppState {
    fn default() -> (s: AppState)
        ensures
            s == AppState::Splash,
    {
        AppState::Splash
    }
}

/// How many players share the arena.
#[derive(Debug, PartialEq, Eq, Structural)]
pub enum MultiplayerMode {
    SinglePlayer,
    TwoPlayers,
}

/// Event raised when the home base is destroyed; downstream systems react.
#[derive(Debug, Clone, Copy, PartialEq, Eq, Structural, Default)]
pub struct HomeDyingEvent;

/// Facing of a movable entity; drives both movement deltas and sprite frames.
#[derive(Debug, Clone, Copy, PartialEq, Eq, Structural)]
pub enum Direction {
    Left,
    Right,
    Up,
    Down,
}

impl Direction {
    /// Index of this facing's quadrant in a sprite sheet partitioned in the
    /// fixed order Up, Right, Down, Left.
    pub open spec fn spec_quadrant_index(self) -> int {
        match self {
            Direction::Up => 0,
            Direction::Right => 1,
            Direction::Down => 2,
            Direction::Left => 3,
        }
    }

    pub fn quadrant_index(&self) -> (r: usize)
        ensures
            r == self.spec_quadrant_index(),
    {
        match self {
            Direction::Up => 0,
            Direction::Right => 1,
            Direction::Down => 2,
            Direction::Left => 3,
        }
    }

    /// First frame of this facing's quadrant in the two-column tank sheet;
    /// shown when the tank turns to face this way.
    pub open spec fn spec_idle_frame(self) -> int {
        match self {
            Direction::Up => 0,
            Direction::Right => 2,
            Direction::Down => 4,
            Direction::Left => 6,
        }
    }

    pub fn idle_frame(&self) -> (r: usize)
        ensures
            r == self.spec_idle_frame(),
    {
        match self {
            Direction::Up => 0,
            Direction::Right => 2,
            Direction::Down => 4,
            Direction::Left => 6,
        }
    }

    /// Frame of the bullet sheet for a bullet flying this way.
    pub open spec fn spec_bullet_frame(self) -> int {
        match self {
            Direction::Up => 0,
            Direction::Right => 1,
            Direction::Down => 2,
            Direction::Left => 3,
        }
    }

    pub fn bullet_frame(&self) -> (r: usize)
        ensures
            r == self.spec_bullet_frame(),
    {
        match self {
            Direction::Up => 0,
            Direction::Right => 1,
            Direction::Down => 2,
            Direction::Left => 3,
        }
    }
}

/// Timer that paces an entity's walk-cycle animation.
#[derive(Debug, Clone, Copy, PartialEq, Eq, Structural)]
pub struct AnimationTimer(pub Timer);

/// Closed frame range `[first, last]` of one entity's animation within a
/// shared sprite sheet.
#[derive(Debug, Clone, Copy, PartialEq, Eq, Structural)]
pub struct AnimationIndices {
    pub first: usize,
    pub last: usize,
}

/// Cooldown between two bullets of a tank.
#[derive(Debug, Clone, Copy, PartialEq, Eq, Structural)]
pub struct TankRefreshBulletTimer(pub Timer);

/// The frame `animate_sprite` shows after one invocation: unchanged unless
/// the timer just finished, then advanced by one, wrapping from `last` back
/// to `first` (a closed-range circular counter, not modulo over the sheet).
pub open spec fn spec_next_frame(index: int, indices: AnimationIndices, advanced: bool) -> int {
    if advanced {
        if index == indices.last {
            indices.first as int
        } else {
            index + 1
        }
    } else {
        index
    }
}

/// Generic animation driver: advance the timer by the frame delta; on each
/// completion the sprite moves one frame through the closed range `indices`.
pub fn animate_sprite(
    timer: &mut AnimationTimer,
    delta_ms: u64,
    indices: &AnimationIndices,
    sprite_index: &mut usize,
)
    requires
        old(timer).0.inv(),
        delta_ms <= MAX_TICK_MS,
        *old(sprite_index) <= indices.last,
    ensures
        final(timer).0 == old(timer).0.spec_tick(delta_ms as int),
        final(timer).0.inv(),
        *final(sprite_index) == spec_next_frame(
            *old(sprite_index) as int,
            *indices,
            final(timer).0.times_finished_this_tick > 0,
        ),
{
    timer.0.tick(delta_ms);
    if timer.0.just_finished() {
        if *sprite_index == indices.last {
            *sprite_index = indices.first;
        } else {
            *sprite_index = *sprite_index + 1;
        }
    }
}

} // verus!
