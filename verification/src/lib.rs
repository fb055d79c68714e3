//! Core of a turn-based two-party artillery duel: two tanks alternate turns,
//! the active side elevates its gun and fires, and the projectile flies under
//! constant gravity until it contacts a fixed ground plane.
//!
//! All quantities are fixed-point integers in milli-units: positions and
//! distances are thousandths of a world unit, angles are milliradians, and
//! velocities are milli-units per second. Tick durations are milliseconds.
use vstd::prelude::*;

pub mod aim;
pub mod angle;
pub mod ballistics;
pub mod entities;
pub mod game;
pub mod math;
pub mod turn;

verus! {

/// One thousandth steps make up one world unit, radian, or second.
pub const MILLI: i64 = 1000;

/// A quarter turn, in milliradians: the upper bound of a gun's elevation.
pub const HALF_PI_MILLIRAD: i64 = 1571;

/// Width of the play space, in milli-units.
pub const GAME_WIDTH: i64 = 84000;

/// Height of the play space, in milli-units.
pub const GAME_HEIGHT: i64 = 48000;

/// Height of the fixed ground plane, in milli-units. No entity's y-position
/// may fall below it.
pub const GROUND_HEIGHT: i64 = 5000;

/// Height of a tank, in milli-units. Tanks rest on the ground plane with the
/// sprite origin at their centre.
pub const TANK_HEIGHT: i64 = 5000;

/// Fixed y-position of every tank: on the ground, raised by half the tank
/// height, in milli-units.
pub const TANK_Y: i64 = 7500;

/// Gravitational acceleration, in milli-units per second squared.
pub const GRAVITY: i64 = -9810;

/// Speed a bullet leaves the muzzle with, in milli-units per second.
pub const MUZZLE_SPEED: i64 = 10000;

/// Distance from a tank's pivot to its gun's barrel tip, in milli-units.
pub const MUZZLE_OFFSET: i64 = 5000;

} // verus!
