//! Plain geometry and range helpers used throughout the simulation.
//!
//! Continuous quantities (positions, headings, rates) are carried as
//! fixed-point integers: one unit of the simulated world is 1000 counts.

use vstd::prelude::*;

verus! {

/// A two dimensional vector in fixed-point world coordinates
/// (1000 counts per world unit).
#[derive(Clone, Copy, Debug, PartialEq, Eq, Structural)]
pub struct Vector2 {
    pub x: i64,
    pub y: i64,
}

impl Vector2 {
    /// Creates a new vector with the given `x` and `y` components.
    pub fn new(x: i64, y: i64) -> (r: Self)
        ensures
            r.x == x,
            r.y == y,
    {
        Vector2 { x, y }
    }

    /// Returns the zero vector.
    pub fn zero() -> (r: Self)
        ensures
            r.x == 0,
            r.y == 0,
    {
        Vector2 { x: 0, y: 0 }
    }

    /// Componentwise sum.
    pub fn add(self, other: Self) -> (r: Self)
        requires
            i64::MIN <= self.x + other.x <= i64::MAX,
            i64::MIN <= self.y + other.y <= i64::MAX,
        ensures
            r.x == self.x + other.x,
            r.y == self.y + other.y,
    {
        Vector2 { x: self.x + other.x, y: self.y + other.y }
    }

    /// Componentwise difference.
    pub fn sub(self, other: Self) -> (r: Self)
        requires
            i64::MIN <= self.x - other.x <= i64::MAX,
            i64::MIN <= self.y - other.y <= i64::MAX,
        ensures
            r.x == self.x - other.x,
            r.y == self.y - other.y,
    {
        Vector2 { x: self.x - other.x, y: self.y - other.y }
    }

    /// Componentwise scaling.
    pub fn mul(self, scalar: i64) -> (r: Self)
        requires
            i64::MIN <= self.x * scalar <= i64::MAX,
            i64::MIN <= self.y * scalar <= i64::MAX,
        ensures
            r.x == self.x * scalar,
            r.y == self.y * scalar,
    {
        Vector2 { x: self.x * scalar, y: self.y * scalar }
    }
}

/// A range of allowed values which a value can be clamped to or checked
/// against.
#[derive(Clone, Copy, Debug, PartialEq, Eq, Structural)]
pub struct Clamped {
    pub min: i64,
    pub max: i64,
}

impl Clamped {
    /// Whether `val` lies within the range (inclusive at both ends).
    pub open spec fn contains(self, val: i64) -> bool {
        self.min <= val <= self.max
    }

    /// The value of `val` clamped to the range.
    pub open spec fn clamped(self, val: i64) -> i64 {
        if val < self.min {
            self.min
        } else if val > self.max {
            self.max
        } else {
            val
        }
    }

    /// Creates a new range with the given min and max.
    pub fn new(min: i64, max: i64) -> (r: Self)
        ensures
            r.min == min,
            r.max == max,
    {
        Clamped { min, max }
    }

    /// Clamps the given value to between the `min` and `max` values.
    pub fn clamp(&self, val: i64) -> (r: i64)
        ensures
            r == self.clamped(val),
    {
        if val < self.min {
            self.min
        } else if val > self.max {
            self.max
        } else {
            val
        }
    }

    /// Checks if `val` is within `min` and `max` (inclusive). If so,
    /// returns `Ok(val)`, otherwise returns `Err(val)`. Values inside the
    /// range pass through unchanged; values outside are rejected, also
    /// unchanged, so the caller can report which value was refused.
    pub fn check(&self, val: i64) -> (r: Result<i64, i64>)
        ensures
            self.contains(val) ==> r == Result::<i64, i64>::Ok(val),
            !self.contains(val) ==> r == Result::<i64, i64>::Err(val),
    {
        if self.min <= val && val <= self.max {
            Ok(val)
        } else {
            Err(val)
        }
    }
}

} // verus!
