//! The explicit world handle the per-frame systems mutate: the arena
//! geometry, the player tank with its components, its spawn shield (a child
//! of the tank), and the live bullets.
//!
//! Positions are whole milli-pixels (a thousandth of an engine pixel) on
//! both axes, so the engine's fractional movement steps survive the
//! conversion; the engine-facing layer converts.

use crate::common::{AnimationTimer, Direction, TankRefreshBulletTimer};
use crate::timer::Timer;
use vstd::prelude::*;

verus! {

/// Largest magnitude of any wall coordinate, margin or movement step.
pub const COORD_LIMIT: i64 = 1_000_000_000;

/// Milli-pixels per engine pixel: the scale of every coordinate here.
pub const UNITS_PER_PIXEL: u64 = 1000;

/// Tank edge length: 80 pixels, in milli-pixels.
pub const TANK_SIZE: u64 = 80_000;

/// Closest a tank may come to a wall: 10 pixels, in milli-pixels.
pub const TANK_PADDING: u64 = 10_000;

/// Cooldown between two bullets of the player tank, in milliseconds.
pub const TANK_REFRESH_BULLET_INTERVAL_MS: u64 = 2000;

/// Period of the tank and shield walk-cycle animations, in milliseconds.
pub const ANIMATION_INTERVAL_MS: u64 = 200;

/// How long the spawn shield protects the tank, in milliseconds.
pub const SHIELD_DURATION_MS: u64 = 5000;

/// Height of the tank spawn point above the bottom wall: 100 pixels, in
/// milli-pixels.
pub const TANK_SPAWN_OFFSET: i64 = 100_000;

/// Arena geometry and movement configuration.
///
/// `step` is the distance one frame of movement covers: speed times the fixed
/// timestep, already multiplied out in milli-pixels.
#[derive(Debug, Clone, Copy, PartialEq, Eq, Structural)]
pub struct Arena {
    pub left_wall: i64,
    pub right_wall: i64,
    pub bottom_wall: i64,
    pub top_wall: i64,
    pub wall_thickness: u64,
    pub tank_half_extent: u64,
    pub tank_padding: u64,
    pub step: u64,
}

impl Arena {
    /// Smallest x the tank center may take: inner face of the left wall plus
    /// the tank half extent plus the padding.
    pub open spec fn x_min(self) -> int {
        self.left_wall + self.wall_thickness / 2 + self.tank_half_extent + self.tank_padding
    }

    pub open spec fn x_max(self) -> int {
        self.right_wall - self.wall_thickness / 2 - self.tank_half_extent - self.tank_padding
    }

    pub open spec fn y_min(self) -> int {
        self.bottom_wall + self.wall_thickness / 2 + self.tank_half_extent + self.tank_padding
    }

    pub open spec fn y_max(self) -> int {
        self.top_wall - self.wall_thickness / 2 - self.tank_half_extent - self.tank_padding
    }

    /// Bounded coordinates and a nonempty movement region.
    pub open spec fn wf(self) -> bool {
        &&& -COORD_LIMIT <= self.left_wall <= COORD_LIMIT
        &&& -COORD_LIMIT <= self.right_wall <= COORD_LIMIT
        &&& -COORD_LIMIT <= self.bottom_wall <= COORD_LIMIT
        &&& -COORD_LIMIT <= self.top_wall <= COORD_LIMIT
        &&& self.wall_thickness <= COORD_LIMIT as u64
        &&& self.tank_half_extent <= COORD_LIMIT as u64
        &&& self.tank_padding <= COORD_LIMIT as u64
        &&& self.step <= COORD_LIMIT as u64
        &&& self.x_min() <= self.x_max()
        &&& self.y_min() <= self.y_max()
    }

    /// The `[x_min, x_max]` clamp range, computed.
    pub fn x_bounds(&self) -> (b: (i64, i64))
        requires
            self.wf(),
        ensures
            b.0 == self.x_min(),
            b.1 == self.x_max(),
    {
        let margin: u64 = self.wall_thickness / 2 + self.tank_half_extent + self.tank_padding;
        (self.left_wall + margin as i64, self.right_wall - margin as i64)
    }

    /// The `[y_min, y_max]` clamp range, computed.
    pub fn y_bounds(&self) -> (b: (i64, i64))
        requires
            self.wf(),
        ensures
            b.0 == self.y_min(),
            b.1 == self.y_max(),
    {
        let margin: u64 = self.wall_thickness / 2 + self.tank_half_extent + self.tank_padding;
        (self.bottom_wall + margin as i64, self.top_wall - margin as i64)
    }
}

/// `v` forced into the closed range `[lo, hi]`.
pub open spec fn spec_clamped(v: int, lo: int, hi: int) -> int {
    if v < lo {
        lo
    } else if v > hi {
        hi
    } else {
        v
    }
}

/// Clamp a coordinate into `[lo, hi]`.
pub fn clamp_coord(v: i64, lo: i64, hi: i64) -> (r: i64)
    requires
        lo <= hi,
    ensures
        r == spec_clamped(v as int, lo as int, hi as int),
        lo <= r <= hi,
{
    if v < lo {
        lo
    } else if v > hi {
        hi
    } else {
        v
    }
}

/// Timer that despawns the spawn shield when it completes.
#[derive(Debug, Clone, Copy, PartialEq, Eq, Structural)]
pub struct ShieldRemoveTimer(pub Timer);

/// The player tank: position, facing, sprite frame, and its two timers.
#[derive(Debug, Clone, Copy, PartialEq, Eq, Structural)]
pub struct Tank {
    pub x: i64,
    pub y: i64,
    pub direction: Direction,
    pub sprite_index: usize,
    pub animation_timer: AnimationTimer,
    pub refresh_bullet_timer: TankRefreshBulletTimer,
}

impl Tank {
    /// Inside the arena bounds, with a repeating animation timer and a
    /// one-shot bullet cooldown, both well formed.
    pub open spec fn wf(self, arena: Arena) -> bool {
        &&& arena.x_min() <= self.x <= arena.x_max()
        &&& arena.y_min() <= self.y <= arena.y_max()
        &&& self.animation_timer.0.inv()
        &&& self.animation_timer.0.mode is Repeating
        &&& self.refresh_bullet_timer.0.inv()
        &&& self.refresh_bullet_timer.0.mode is Once
    }
}

/// The spawn-protection shield, a child of the tank it protects.
#[derive(Debug, Clone, Copy, PartialEq, Eq, Structural)]
pub struct Shield {
    pub sprite_index: usize,
    pub animation_timer: AnimationTimer,
    pub remove_timer: ShieldRemoveTimer,
}

impl Shield {
    /// A repeating animation timer and a one-shot expiry timer, well formed.
    pub open spec fn wf(self) -> bool {
        &&& self.animation_timer.0.inv()
        &&& self.animation_timer.0.mode is Repeating
        &&& self.remove_timer.0.inv()
        &&& self.remove_timer.0.mode is Once
    }
}

/// A live projectile: spawn position, flight direction, sprite frame.
#[derive(Debug, Clone, Copy, PartialEq, Eq, Structural)]
pub struct Bullet {
    pub x: i64,
    pub y: i64,
    pub direction: Direction,
    pub sprite_index: usize,
}

/// Movement keys held down this frame.
#[derive(Debug, Clone, Copy, PartialEq, Eq, Structural)]
pub struct MoveKeys {
    pub left: bool,
    pub right: bool,
    pub up: bool,
    pub down: bool,
}

impl MoveKeys {
    pub open spec fn any_pressed(self) -> bool {
        self.left || self.right || self.up || self.down
    }

    /// At most one direction is honored per frame, in the fixed priority
    /// order Left, then Right, then Up, then Down.
    pub open spec fn chosen_direction(self) -> Direction {
        if self.left {
            Direction::Left
        } else if self.right {
            Direction::Right
        } else if self.up {
            Direction::Up
        } else {
            Direction::Down
        }
    }
}

/// The world the per-frame systems mutate.
#[derive(Debug, Clone, PartialEq, Eq)]
pub struct GameWorld {
    pub arena: Arena,
    pub tank: Option<Tank>,
    pub shield: Option<Shield>,
    pub bullets: Vec<Bullet>,
}

impl GameWorld {
    /// Well-formed arena and entities; the shield only ever exists as a child
    /// of a live tank.
    pub open spec fn wf(self) -> bool {
        &&& self.arena.wf()
        &&& (self.tank matches Some(t) ==> t.wf(self.arena))
        &&& (self.shield is Some ==> self.tank is Some)
        &&& (self.shield matches Some(s) ==> s.wf())
    }

    /// An empty world over the given arena.
    pub fn new(arena: Arena) -> (w: GameWorld)
        requires
            arena.wf(),
        ensures
            w.arena == arena,
            w.tank is None,
            w.shield is None,
            w.bullets@ == Seq::<Bullet>::empty(),
            w.wf(),
    {
        GameWorld { arena, tank: None, shield: None, bullets: Vec::new() }
    }

    /// Despawn the tank; the despawn cascades to its child shield.
    pub fn despawn_tank(&mut self)
        requires
            old(self).wf(),
        ensures
            final(self).wf(),
            final(self).tank is None,
            final(self).shield is None,
            final(self).arena == old(self).arena,
            final(self).bullets == old(self).bullets,
    {
        self.tank = None;
        self.shield = None;
    }
}

} // verus!
