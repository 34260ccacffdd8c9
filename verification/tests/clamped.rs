//! Range checking and clamping.

use battlebots::Clamped;

#[test]
fn clamp_inside_range_passes_through() {
    let c = Clamped::new(-10, 10);
    assert_eq!(c.clamp(7), 7);
    assert_eq!(c.clamp(-10), -10);
    assert_eq!(c.clamp(10), 10);
    assert_eq!(c.clamp(0), 0);
}

#[test]
fn clamp_outside_range_clamps() {
    let c = Clamped::new(-10, 10);
    assert_eq!(c.clamp(11), 10);
    assert_eq!(c.clamp(-11), -10);
    assert_eq!(c.clamp(i64::MAX), 10);
    assert_eq!(c.clamp(i64::MIN), -10);
}

#[test]
fn check_inside_range_is_ok_verbatim() {
    let c = Clamped::new(-2000, 2000);
    assert_eq!(c.check(1500), Ok(1500));
    assert_eq!(c.check(-2000), Ok(-2000));
    assert_eq!(c.check(2000), Ok(2000));
}

#[test]
fn check_outside_range_is_err_verbatim() {
    let c = Clamped::new(-2000, 2000);
    assert_eq!(c.check(2001), Err(2001));
    assert_eq!(c.check(-2001), Err(-2001));
}

#[test]
fn check_with_inverted_range_refuses_everything() {
    let c = Clamped::new(10, -10);
    assert_eq!(c.check(0), Err(0));
    assert_eq!(c.clamp(0), 10);
}
