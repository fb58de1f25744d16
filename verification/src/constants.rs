//! Global scaling constants.
//!
//! Every quantity in the simulation is an exact fixed-point integer:
//!
//! * A *normalized position* measures progress across the map in units of
//!   `1 / NORM_ONE` map widths, so `0` is the left edge and `NORM_ONE` the
//!   right edge.  It is an `i64`: units may overshoot either edge.
//! * A *world position* is the normalized position times `MAP_SCALE`,
//!   expressed in units of `1 / WORLD_UNIT` world units.  Since
//!   `MAP_SCALE * WORLD_UNIT / NORM_ONE == POS_TO_WORLD`, converting a
//!   normalized position to a world position is one exact multiplication.
//!   Attack ranges are stored in the same world fixed-point units.
//! * Hit points and damage are stored in centi-hitpoints (`HP_SCALE` per
//!   hitpoint).  A unit's effective damage per attack is its base damage
//!   divided by `DAMAGE_DIVISOR` (a damage scale of 1/100).
//! * Speeds are stored in tenths of a speed point (`SPEED_SCALE` per point).
//!   The effective speed of a unit, in normalized-position units per
//!   nanosecond of frame time, is exactly its stored speed value:
//!   `(speed / SPEED_SCALE) * (1 / MOVEMENT_DIVISOR)` map widths per
//!   `DT_UNIT_NANOS` nanoseconds equals `speed` position units per nanosecond.

use vstd::prelude::*;

verus! {

/// One full map width in normalized-position units.
pub const NORM_ONE: i64 = 100_000_000_000;

/// World units per map width.
pub const MAP_SCALE: i64 = 500;

/// World fixed-point units per world unit.
pub const WORLD_UNIT: i64 = 1_000_000_000;

/// World fixed-point units per normalized-position unit:
/// `MAP_SCALE * WORLD_UNIT / NORM_ONE`.
pub const POS_TO_WORLD: i64 = 5;

/// Positions are clamped to `[-POS_BOUND, POS_BOUND]` so that every
/// world-position product and difference stays inside `i64`.  This is about
/// eight million map widths away from the battlefield, far beyond anything
/// the movement rules can reach in a plausible match.
pub const POS_BOUND: i64 = 800_000_000_000_000_000;

/// Centi-hitpoints per hitpoint.
pub const HP_SCALE: u32 = 100;

/// Divisor applied to a unit's base damage to obtain the damage actually
/// dealt per attack (a global damage scale of 1/100).
pub const DAMAGE_DIVISOR: u32 = 100;

/// Stored speed values per speed point.
pub const SPEED_SCALE: u32 = 10;

/// Divisor applied to a unit's base speed to obtain map widths moved per
/// time unit (a global movement-speed scale of 1/100).
pub const MOVEMENT_DIVISOR: u32 = 100;

/// Nanoseconds of frame time that make one unit of elapsed-time fraction.
pub const DT_UNIT_NANOS: u32 = 100_000_000;

/// Frame times are sub-second: strictly fewer nanoseconds than this.
pub const NANOS_PER_SECOND: u32 = 1_000_000_000;

/// Minerals each player earns at the end of every tick.
pub const MINERALS_PER_TICK: u32 = 1;

} // verus!
