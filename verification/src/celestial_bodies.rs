//! The capability contracts every concrete body satisfies: being a
//! celestial body, hosting orbits, following an orbit, and being shown.

use vstd::prelude::*;

use crate::sampling::GenCtx;

verus! {

/// The kinds of celestial object the simulation distinguishes. Only
/// `Star`, `Planet` and `SolarSystem` are produced here; the rest are
/// reserved extension points.
#[derive(Clone, Copy, PartialEq, Eq, Structural, Debug)]
pub enum CelestialBodyType {
    Star,
    Planet,
    Moon,
    Asteroid,
    Comet,
    GasGiant,
    Nebula,
    SolarSystem,
}

/// A presentation hint for menus; the core never depends on its value.
#[derive(Clone, Copy, PartialEq, Eq, Structural, Debug)]
pub enum MenuColor {
    Neutral,
    White,
    Yellow,
    Cyan,
}

/// A body with a kind, a mass, a radius, and a single construction path:
/// generation from its host.
pub trait CelestialBody: Sized {
    /// What a body of this type is generated from: `()` for independent
    /// bodies, an aggregate snapshot for dependent ones.
    type HostType;

    /// The invariant every generated body of this type satisfies.
    spec fn wf(&self) -> bool;

    /// The kind this type reports.
    spec fn kind(&self) -> CelestialBodyType;

    /// The mass, abstractly.
    spec fn mass_value(&self) -> u64;

    /// The radius, abstractly.
    spec fn radius_value(&self) -> u64;

    /// When generation from the given host and context is permitted.
    spec fn gen_ok(host: Self::HostType, ctx: GenCtx) -> bool;

    fn get_type(&self) -> (body_type: CelestialBodyType)
        ensures
            body_type == self.kind(),
    ;

    fn get_mass(&self) -> (mass: u64)
        requires
            self.wf(),
        ensures
            mass == self.mass_value(),
    ;

    fn get_radius(&self) -> (radius: u64)
        requires
            self.wf(),
        ensures
            radius == self.radius_value(),
    ;

    /// The sole construction path: a fully valid instance, leaving the
    /// name table untouched.
    fn generate(host: Self::HostType, ctx: &mut GenCtx) -> (body: Self)
        requires
            Self::gen_ok(host, *old(ctx)),
        ensures
            body.wf(),
            final(ctx).names == old(ctx).names,
    ;
}

/// A body that moves along an orbit around a host.
pub trait CanOrbit: Sized {
    /// The aggregate this body orbits inside. (Verus refuses the mutual
    /// bound with `Orbitable::SatelliteType`, so the linkage is one-way.)
    type HostType;

    /// The invariant of a body in a valid orbit; it keeps the orbit
    /// position inside `[0, TWO_PI_MILLI)`.
    spec fn orbit_wf(&self) -> bool;

    spec fn orbit_radius_value(&self) -> u64;

    spec fn orbit_period_value(&self) -> u64;

    spec fn orbit_position_value(&self) -> u64;

    spec fn angular_speed_value(&self) -> u64;

    /// The state of this body after one tick of length `dt`: only the
    /// orbit position moves.
    spec fn stepped(self, dt: u64) -> Self;

    fn get_orbit_radius(&self) -> (radius: u64)
        ensures
            radius == self.orbit_radius_value(),
    ;

    fn get_orbit_period(&self) -> (period: u64)
        ensures
            period == self.orbit_period_value(),
    ;

    /// The position in orbit in milli-radians, inside `[0, TWO_PI_MILLI)`,
    /// counting from the rightmost point.
    fn get_orbit_position(&self) -> (position: u64)
        ensures
            position == self.orbit_position_value(),
    ;

    fn get_angular_speed(&self) -> (speed: u64)
        ensures
            speed == self.angular_speed_value(),
    ;

    /// Advance the orbit position by one tick of length `dt`, normalized.
    fn update_orbit_position(&mut self, dt: u64)
        requires
            old(self).orbit_wf(),
        ensures
            *final(self) == old(self).stepped(dt),
            final(self).orbit_wf(),
    ;
}

/// An aggregate that satellites orbit around.
pub trait Orbitable: Sized {
    /// The type of this aggregate's satellites.
    type SatelliteType: CanOrbit;

    /// The invariant under which orbits can be read and advanced.
    spec fn orbits_wf(&self) -> bool;

    /// The satellite sequence, abstractly.
    spec fn satellites(&self) -> Seq<Self::SatelliteType>;

    /// A snapshot copy of the satellites, not a live view.
    fn get_satellites(&self) -> (satellites: Vec<Self::SatelliteType>)
        requires
            self.orbits_wf(),
        ensures
            satellites@ == self.satellites(),
    ;

    /// Advance every satellite by one tick of length `dt`; the sequence is
    /// neither reordered nor resized.
    fn update_orbits(&mut self, dt: u64)
        requires
            old(self).orbits_wf(),
        ensures
            final(self).orbits_wf(),
            final(self).satellites().len() == old(self).satellites().len(),
            forall|i: int|
                0 <= i < old(self).satellites().len() ==> #[trigger] final(self).satellites()[i]
                    == old(self).satellites()[i].stepped(dt),
    ;
}

/// A body the display layer can poll; the core never pushes updates.
pub trait Displayable {
    /// The shown name, abstractly.
    spec fn display_name(&self) -> Seq<char>;

    fn get_name(&self) -> (name: String)
        ensures
            name@ == self.display_name(),
    ;

    /// Label/value rows for presentation; none unless a type overrides.
    fn get_properties(&self) -> (rows: Vec<Vec<String>>)
        default_ensures
            rows@.len() == 0,
    {
        Vec::new()
    }

    /// A rendering hint; neutral unless a type overrides.
    fn get_menu_color(&self) -> (color: MenuColor)
        default_ensures
            color == MenuColor::Neutral,
    {
        MenuColor::Neutral
    }
}

} // verus!
