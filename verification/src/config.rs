//! Game constants and the immutable per-session configuration.
//!
//! Lengths are in milliunits (one thousandth of a world unit), times in
//! milliseconds, speeds in milliunits per millisecond (numerically equal to
//! world units per second), and angles in milliradians.

use vstd::prelude::*;

verus! {

/// Coins the player starts with.
pub const INITIAL_COINS: u64 = 30;

/// Lives the player starts with.
pub const INITIAL_LIVES: i64 = 3;

/// Coins one tower costs.
pub const TOWER_COST: u64 = 15;

/// Balloon sprite edge length: 48 world units scaled by 3, in milliunits.
pub const BALLOON_SIZE: i64 = 144_000;

/// Balloon speed: 150 world units per second.
pub const BALLOON_SPEED: i64 = 150;

/// Projectile speed: 500 world units per second.
pub const PROJECTILE_SPEED: i64 = 500;

/// Projectile radius: 15 world units, in milliunits.
pub const PROJECTILE_SIZE: i64 = 15_000;

/// Tower radius: 50 world units, in milliunits.
pub const TOWER_SIZE: i64 = 50_000;

/// One balloon is spawned each time the spawn timer crosses this period.
pub const SPAWN_PERIOD: i64 = 1000;

/// Base firing period: a level-`n` tower fires every `FIRE_BASE / n` ms.
pub const FIRE_BASE: u64 = 2000;

/// A tower levels up each time its pop count reaches a multiple of this.
pub const POPS_PER_LEVEL: u64 = 10;

/// Preview rotation speed: 5 radians per second, in mrad per ms.
pub const ROTATE_SPEED: i64 = 5;

/// Largest allowed play-area dimension in milliunits.
pub const MAX_DIM: i64 = 1_000_000_000_000;

/// Largest allowed speed in milliunits per millisecond.
pub const MAX_SPEED: i64 = 1_000_000;

/// Largest allowed entity size in milliunits.
pub const MAX_SIZE: i64 = 1_000_000_000;

/// Largest displacement any entity can make in one frame:
/// `MAX_SPEED` times the largest representable time delta (`u32::MAX` ms).
pub const MAX_STEP: i64 = 4_294_967_295_000_000;

/// Immutable configuration fixed when a scene is created: the play-area
/// extent and the constants that parametrize the simulation.
#[derive(Clone, Copy, PartialEq, Eq, Structural, Debug)]
pub struct Config {
    /// Play-area width in milliunits.
    pub width: i64,
    /// Play-area height in milliunits.
    pub height: i64,
    /// Coins deducted when a tower placement is confirmed.
    pub tower_cost: u64,
    /// Balloon speed in milliunits per millisecond.
    pub balloon_speed: i64,
    /// Projectile speed in milliunits per millisecond.
    pub projectile_speed: i64,
    /// Balloon sprite edge length in milliunits.
    pub balloon_size: i64,
    /// Projectile radius in milliunits.
    pub projectile_size: i64,
}

impl Config {
    /// Bounds under which every frame's fixed-point arithmetic stays in range.
    pub open spec fn wf(self) -> bool {
        &&& 0 < self.width <= MAX_DIM
        &&& 0 < self.height <= MAX_DIM
        &&& 0 < self.balloon_speed <= MAX_SPEED
        &&& 0 < self.projectile_speed <= MAX_SPEED
        &&& 0 < self.balloon_size <= MAX_SIZE
        &&& 0 < self.projectile_size <= MAX_SIZE
    }

    /// Half the balloon size: the radius of its circular collider.
    pub open spec fn spec_balloon_collider(self) -> int {
        self.balloon_size as int / 2
    }

    /// Sum of the balloon collider radius and the projectile radius: the
    /// per-axis distance under which a projectile and a balloon collide.
    pub open spec fn spec_collision_range(self) -> int {
        self.spec_balloon_collider() + self.projectile_size
    }

    /// Half the balloon size: the radius of its circular collider.
    pub fn balloon_collider(&self) -> (r: i64)
        requires
            self.wf(),
        ensures
            r == self.spec_balloon_collider(),
    {
        ((self.balloon_size as u64) / 2) as i64
    }

    /// Sum of the balloon collider radius and the projectile radius.
    pub fn collision_range(&self) -> (r: i64)
        requires
            self.wf(),
        ensures
            r == self.spec_collision_range(),
    {
        self.balloon_collider() + self.projectile_size
    }
}

/// The configuration the game ships with: the given play area and the
/// canonical constants (tower cost 15, balloon speed 150, projectile speed
/// 500, balloon size 144, projectile radius 15, all in world units).
pub fn standard_config(width: i64, height: i64) -> (c: Config)
    requires
        0 < width <= MAX_DIM,
        0 < height <= MAX_DIM,
    ensures
        c == (Config {
            width,
            height,
            tower_cost: TOWER_COST,
            balloon_speed: BALLOON_SPEED,
            projectile_speed: PROJECTILE_SPEED,
            balloon_size: BALLOON_SIZE,
            projectile_size: PROJECTILE_SIZE,
        }),
        c.wf(),
{
    Config {
        width,
        height,
        tower_cost: TOWER_COST,
        balloon_speed: BALLOON_SPEED,
        projectile_speed: PROJECTILE_SPEED,
        balloon_size: BALLOON_SIZE,
        projectile_size: PROJECTILE_SIZE,
    }
}

} // verus!
