//! The stock configuration and its derived tick length.

use battlebots::config::Config;
use battlebots::render::check_instance_capacity;
use battlebots::render::MaxInstancesExceeded;

#[test]
fn default_config_matches_the_stock_simulation() {
    let c = Config::default();
    assert_eq!(c.ticks_per_second, 60);
    assert_eq!(c.ticks_per_step, 5);
    assert_eq!(c.drive_friction, 950);
    assert_eq!(c.world_size.x, 100_000);
    assert_eq!(c.thrust_limits.min, -10_000);
    assert_eq!(c.thrust_limits.max, 10_000);
    assert_eq!(c.turn_rate_limits.min, -2_000);
    assert_eq!(c.bullet_power_limits.min, 0);
}

#[test]
fn tick_duration_truncates_to_whole_microseconds() {
    let c = Config::default();
    assert_eq!(c.tick_duration(), 16_666);
    let mut fast = c;
    fast.ticks_per_second = 1_000;
    assert_eq!(fast.tick_duration(), 1_000);
}

#[test]
fn instance_capacity_is_checked_exactly() {
    assert_eq!(check_instance_capacity(10, 10), Ok(()));
    assert_eq!(check_instance_capacity(10, 0), Ok(()));
    assert_eq!(check_instance_capacity(10, 11), Err(MaxInstancesExceeded));
}
