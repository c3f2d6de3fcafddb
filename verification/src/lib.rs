//! Procedural generation and orbital dynamics for a hierarchy of celestial
//! bodies (stars, planets, solar systems), on a fixed-point integer scale.
//!
//! All physical quantities are fixed-point values: one unit equals
//! [`units::SCALE`] (so a mass of `1000` is one solar mass, a radius of
//! `1000` one solar radius). Angles are measured in milli-radians, a full
//! revolution being [`units::TWO_PI_MILLI`].

pub mod astrophysics;
pub mod celestial_bodies;
pub mod orbit;
pub mod planet;
pub mod sampling;
pub mod solar_system;
pub mod star;
pub mod units;
