//! Fixed-point scale and the bounds every quantity in the library obeys.

use vstd::prelude::*;

verus! {

/// Fixed-point scale: a stored value of `SCALE` means `1.0` of a unit.
pub const SCALE: u64 = 1000;

/// The fourth power of [`SCALE`], used by the sphere-density relation.
pub const SCALE_P4: u64 = 1_000_000_000_000;

/// The square of [`SCALE`].
pub const SCALE_SQ: u64 = 1_000_000;

/// The circle constant, in milli-radians.
pub const PI_MILLI: u64 = 3141;

/// A full revolution, in milli-radians. Orbit positions live in
/// `[0, TWO_PI_MILLI)`.
pub const TWO_PI_MILLI: u64 = 6283;

/// Largest admissible body mass (a million units).
pub const MASS_LIMIT: u64 = 1_000_000_000;

/// Largest admissible body radius (a million units).
pub const RADIUS_LIMIT: u64 = 1_000_000_000;

/// Largest admissible orbit radius.
pub const ORBIT_RADIUS_LIMIT: u64 = 1_000_000_000_000_000;

/// Largest admissible orbit period.
pub const PERIOD_LIMIT: u64 = 1_000_000_000_000_000_000;

/// Largest radius the innermost orbit of a system may have.
pub const FIRST_ORBIT_LIMIT: u64 = 4_294_967_296;

/// Most planets a solar system may hold.
pub const MAX_PLANETS: usize = 16;

} // verus!
