use vstd::prelude::*;

verus! {

/// Position steps in one world unit.
pub const UNIT: i64 = 1_000_000;

/// Microseconds in one second.
pub const MICROS_PER_SECOND: u64 = 1_000_000;

/// Half of the play field's width: the field spans `-HALF_WIDTH..=HALF_WIDTH`.
pub const HALF_WIDTH: i64 = 128 * UNIT;

/// Half of the play field's height: the field spans `-HALF_HEIGHT..=HALF_HEIGHT`.
pub const HALF_HEIGHT: i64 = 128 * UNIT;

/// Distance kept between the field's bottom edge and the player.
pub const PADDING: i64 = 32 * UNIT;

pub const ALIEN_WIDTH: i64 = 9 * UNIT;

pub const ALIEN_HEIGHT: i64 = 9 * UNIT;

pub const ALIEN_GAP: i64 = 5 * UNIT;

/// Vertical distance of one descent step: one row and its gap.
pub const ROW_STEP: i64 = ALIEN_HEIGHT + ALIEN_GAP;

/// Horizontal distance between two columns of the spawn grid.
pub const COLUMN_STEP: i64 = ALIEN_WIDTH + ALIEN_GAP;

pub const GRID_ROWS: usize = 3;

pub const GRID_COLUMNS: usize = 8;

/// Number of aliens in a freshly spawned swarm.
pub const GRID_SIZE: usize = GRID_ROWS * GRID_COLUMNS;

/// Swarm speed, in world units per second (steps per microsecond).
pub const ALIEN_SPEED: i64 = 64;

/// Projectile speed, in world units per second (steps per microsecond).
pub const BULLET_SPEED: i64 = 256;

/// Largest player speed, in world units per second (steps per microsecond).
pub const PLAYER_MAX_SPEED: i64 = 128;

pub const PLAYER_HEIGHT: i64 = 16 * UNIT;

/// Half of `PLAYER_HEIGHT`.
pub const PLAYER_HALF_HEIGHT: i64 = 8 * UNIT;

/// Half of `ALIEN_HEIGHT`: four and a half units.
pub const ALIEN_HALF_HEIGHT: i64 = 4_500_000;

/// Vertical position of the player.
pub const PLAYER_Y: i64 = -HALF_HEIGHT + PADDING;

/// Vertical position at which a shot leaves the player.
pub const SHOT_Y: i64 = PLAYER_Y + PLAYER_HALF_HEIGHT;

/// A projectile and an alien collide when they are at most this far apart on
/// both axes.
pub const COLLISION_DIST: i64 = 6 * UNIT;

/// The swarm stops moving once an alien is at or below this height.
pub const ALIEN_FLOOR: i64 = -HALF_HEIGHT + ALIEN_GAP + PADDING;

/// The player loses once an alien is at or below this height (the defense line).
pub const DEFENSE_LINE: i64 = -HALF_HEIGHT + ALIEN_HALF_HEIGHT + PLAYER_HEIGHT + PADDING;

/// How long the splash screen waits before the match starts.
pub const SPLASH_WAIT_MICROS: u64 = 5 * MICROS_PER_SECOND;

/// Duration of one step of the end screen's ellipsis animation.
pub const END_STEP_MICROS: u64 = MICROS_PER_SECOND;

} // verus!
