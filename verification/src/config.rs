//! The immutable per-run configuration handed to the world and cloned into
//! every agent.
//!
//! Rates and sizes are fixed-point integers (1000 counts per world unit,
//! 1000 counts per radian); time is measured in whole microseconds.

use vstd::prelude::*;
use crate::math::{Clamped, Vector2};

verus! {

/// Largest magnitude a configured rate bound may have, in fixed-point
/// counts: one million world units (or radians) per second.
pub const RATE_BOUND_MAX: i64 = 1_000_000_000;

/// Largest world side length, in fixed-point counts: one billion world units.
pub const WORLD_SIZE_MAX: i64 = 1_000_000_000_000;

/// Microseconds in one second.
pub const MICROS_PER_SECOND: u64 = 1_000_000;

#[derive(Clone, Copy, Debug, PartialEq, Eq, Structural)]
pub struct Config {
    /// The size of the world.
    pub world_size: Vector2,

    /// The frame rate of the simulation (but not necessarily the rendering).
    pub ticks_per_second: u32,

    /// The number of ticks between each external step.
    pub ticks_per_step: u32,

    /// The multiplicative friction per tick for robots, in thousandths:
    /// 1000 means no friction, 0 stops a robot dead each tick.
    pub drive_friction: i64,

    /// The range of allowed thrust values.
    pub thrust_limits: Clamped,

    /// The range of allowed turn rate values.
    pub turn_rate_limits: Clamped,

    /// The range of allowed gun turn rate values.
    pub gun_turn_rate_limits: Clamped,

    /// The range of allowed radar turn rate values.
    pub radar_turn_rate_limits: Clamped,

    /// The range of allowed bullet power values.
    pub bullet_power_limits: Clamped,
}

/// Whether one configured range is ordered and within the magnitude that
/// the fixed-point arithmetic of a tick can absorb.
pub open spec fn limits_wf(c: Clamped) -> bool {
    &&& c.min <= c.max
    &&& -RATE_BOUND_MAX <= c.min
    &&& c.max <= RATE_BOUND_MAX
}

impl Config {
    /// A configuration the simulation can run under: at least one tick per
    /// second, at least one tick per external step, friction in `[0, 1000]`,
    /// every command range ordered and of bounded magnitude, and a world of
    /// positive, bounded size.
    pub open spec fn wf(self) -> bool {
        &&& 1 <= self.ticks_per_second
        &&& 1 <= self.ticks_per_step
        &&& 0 <= self.drive_friction <= 1000
        &&& limits_wf(self.thrust_limits)
        &&& limits_wf(self.turn_rate_limits)
        &&& limits_wf(self.gun_turn_rate_limits)
        &&& limits_wf(self.radar_turn_rate_limits)
        &&& limits_wf(self.bullet_power_limits)
        &&& 0 < self.world_size.x <= WORLD_SIZE_MAX
        &&& 0 < self.world_size.y <= WORLD_SIZE_MAX
    }

    /// Calculate the length of a tick, in microseconds, based on the
    /// `ticks_per_second`; the division truncates.
    pub fn tick_duration(&self) -> (r: u64)
        requires
            1 <= self.ticks_per_second,
        ensures
            r == MICROS_PER_SECOND as int / self.ticks_per_second as int,
    {
        MICROS_PER_SECOND / (self.ticks_per_second as u64)
    }
}

impl Default for Config {
    /// The stock configuration: a 100 by 100 world at 60 ticks per second,
    /// one external step every 5 ticks, 5% friction per tick, thrust in
    /// `[-10, 10]` units, every turn rate in `[-2, 2]` radians per second
    /// and bullet power in `[0, 10]`.
    fn default() -> (r: Self)
        ensures
            r.wf(),
            r.ticks_per_second == 60,
            r.ticks_per_step == 5,
            r.drive_friction == 950,
            r.world_size == (Vector2 { x: 100_000i64, y: 100_000i64 }),
            r.thrust_limits == (Clamped { min: -10_000i64, max: 10_000i64 }),
            r.turn_rate_limits == (Clamped { min: -2_000i64, max: 2_000i64 }),
            r.gun_turn_rate_limits == (Clamped { min: -2_000i64, max: 2_000i64 }),
            r.radar_turn_rate_limits == (Clamped { min: -2_000i64, max: 2_000i64 }),
            r.bullet_power_limits == (Clamped { min: 0i64, max: 10_000i64 }),
    {
        Config {
            world_size: Vector2 { x: 100_000, y: 100_000 },
            ticks_per_second: 60,
            ticks_per_step: 5,
            drive_friction: 950,
            thrust_limits: Clamped { min: -10_000, max: 10_000 },
            turn_rate_limits: Clamped { min: -2_000, max: 2_000 },
            gun_turn_rate_limits: Clamped { min: -2_000, max: 2_000 },
            radar_turn_rate_limits: Clamped { min: -2_000, max: 2_000 },
            bullet_power_limits: Clamped { min: 0, max: 10_000 },
        }
    }
}

} // verus!
