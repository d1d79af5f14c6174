//! Deterministic per-frame simulation core of a balloon tower-defense game.
//!
//! Balloons traverse a horizontal lane, towers fire projectiles along their
//! facing, projectiles pop balloons, and an economy of coins and lives evolves
//! from those collisions. All quantities are fixed-point integers: lengths in
//! milliunits (one thousandth of a world unit), times in milliseconds, and
//! angles in milliradians, so that every state transition is exact and
//! machine-checked. Rendering, asset loading and input polling are left to a
//! driver, which hands the core one input snapshot and one time delta per
//! frame and receives the next world state plus a list of draw requests.

use vstd::prelude::*;

pub mod arith;
pub mod balloon;
pub mod config;
pub mod draw;
pub mod projectile;
pub mod scene;
pub mod tower;
pub mod transitions;
pub mod trig;

verus! {

} // verus!
