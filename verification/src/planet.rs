//! Planets: generated against a snapshot of the solar system being built,
//! and advanced along their orbits tick by tick.

use vstd::prelude::*;
use vstd::arithmetic::mul::lemma_mul_inequality;
use vstd::arithmetic::power2::{lemma2_to64, lemma_pow2_strictly_increases, pow2};

use crate::astrophysics::{
    calculate_angular_speed_from_period, calculate_nth_orbit,
    calculate_orbit_period_from_radius_and_mass, lemma_nth_orbit_at_least_first,
    lemma_nth_orbit_doubling_bound, nth_orbit_value, period_value, speed_value,
};
use crate::celestial_bodies::{CanOrbit, CelestialBody, CelestialBodyType, Displayable};
use crate::orbit::{advance_position, advanced_many, advanced_position};
use vstd::arithmetic::div_mod::lemma_mod_division_less_than_divisor;
use crate::sampling::{sample_centered, GenCtx};
use crate::solar_system::SolarSystem;
use crate::units::{MASS_LIMIT, MAX_PLANETS, ORBIT_RADIUS_LIMIT, PERIOD_LIMIT, RADIUS_LIMIT,
    TWO_PI_MILLI};

verus! {

/// Center of the planetary mass distribution.
pub const PLANET_MASS_MEAN: u64 = 100;

/// Spread of the planetary mass distribution.
pub const PLANET_MASS_SPREAD: u64 = 50;

/// Center of the planetary radius distribution.
pub const PLANET_RADIUS_MEAN: u64 = 100;

/// Spread of the planetary radius distribution.
pub const PLANET_RADIUS_SPREAD: u64 = 50;

/// A planet: mass and radius of its own, and the four orbital elements
/// relative to its host system.
#[derive(Clone, Copy, PartialEq, Eq, Structural, Debug)]
pub struct Planet {
    pub mass: u64,
    pub radius: u64,
    pub orbit_radius: u64,
    pub orbit_period: u64,
    pub orbit_position: u64,
    pub angular_speed: u64,
}

impl Planet {
    /// A planet's invariant: bounded positive parameters, an angular speed
    /// derived from the period, and a normalized orbit position.
    pub open spec fn planet_wf(&self) -> bool {
        &&& 1 <= self.mass <= MASS_LIMIT
        &&& 1 <= self.radius <= RADIUS_LIMIT
        &&& 1 <= self.orbit_radius <= ORBIT_RADIUS_LIMIT
        &&& 1 <= self.orbit_period <= PERIOD_LIMIT
        &&& self.angular_speed == speed_value(self.orbit_period as int)
        &&& 1 <= self.angular_speed <= TWO_PI_MILLI
        &&& self.orbit_position < TWO_PI_MILLI
    }

    /// Build a planet directly from its parts; the angular speed is
    /// derived from the period.
    pub fn new(mass: u64, radius: u64, orbit_radius: u64, orbit_period: u64, orbit_position: u64)
        -> (planet: Planet)
        requires
            1 <= mass <= MASS_LIMIT,
            1 <= radius <= RADIUS_LIMIT,
            1 <= orbit_radius <= ORBIT_RADIUS_LIMIT,
            1 <= orbit_period <= PERIOD_LIMIT,
            orbit_position < TWO_PI_MILLI,
        ensures
            planet.mass == mass,
            planet.radius == radius,
            planet.orbit_radius == orbit_radius,
            planet.orbit_period == orbit_period,
            planet.orbit_position == orbit_position,
            planet.angular_speed == speed_value(orbit_period as int),
            planet.planet_wf(),
    {
        let angular_speed = calculate_angular_speed_from_period(orbit_period);
        Planet { mass, radius, orbit_radius, orbit_period, orbit_position, angular_speed }
    }
}

impl CanOrbit for Planet {
    type HostType = SolarSystem;

    open spec fn orbit_wf(&self) -> bool {
        self.planet_wf()
    }

    open spec fn orbit_radius_value(&self) -> u64 {
        self.orbit_radius
    }

    open spec fn orbit_period_value(&self) -> u64 {
        self.orbit_period
    }

    open spec fn orbit_position_value(&self) -> u64 {
        self.orbit_position
    }

    open spec fn angular_speed_value(&self) -> u64 {
        self.angular_speed
    }

    open spec fn stepped(self, dt: u64) -> Planet {
        Planet {
            mass: self.mass,
            radius: self.radius,
            orbit_radius: self.orbit_radius,
            orbit_period: self.orbit_period,
            orbit_position: advanced_position(self.orbit_position as int,
                self.angular_speed as int, dt as int) as u64,
            angular_speed: self.angular_speed,
        }
    }

    fn get_orbit_radius(&self) -> (radius: u64) {
        self.orbit_radius
    }

    fn get_orbit_period(&self) -> (period: u64) {
        self.orbit_period
    }

    fn get_orbit_position(&self) -> (position: u64) {
        self.orbit_position
    }

    fn get_angular_speed(&self) -> (speed: u64) {
        self.angular_speed
    }

    fn update_orbit_position(&mut self, dt: u64) {
        self.orbit_position = advance_position(self.orbit_position, self.angular_speed, dt);
    }
}

impl CelestialBody for Planet {
    type HostType = SolarSystem;

    open spec fn wf(&self) -> bool {
        self.planet_wf()
    }

    open spec fn kind(&self) -> CelestialBodyType {
        CelestialBodyType::Planet
    }

    open spec fn mass_value(&self) -> u64 {
        self.mass
    }

    open spec fn radius_value(&self) -> u64 {
        self.radius
    }

    /// A planet can be generated from any valid system that still has
    /// room for one more planet.
    open spec fn gen_ok(host: SolarSystem, ctx: GenCtx) -> bool {
        &&& host.system_wf()
        &&& host.planets@.len() < MAX_PLANETS
    }

    fn get_type(&self) -> (body_type: CelestialBodyType) {
        CelestialBodyType::Planet
    }

    fn get_mass(&self) -> (mass: u64) {
        self.mass
    }

    fn get_radius(&self) -> (radius: u64) {
        self.radius
    }

    /// The orbit radius continues the host's orbit ladder: the inner
    /// limit for a first planet, the next rung above the first planet's
    /// orbit otherwise. Mass and radius are drawn from the planetary
    /// distributions, and the starting phase is zero by choice.
    fn generate(host: SolarSystem, ctx: &mut GenCtx) -> (body: Self)
        ensures
            body.orbit_radius == nth_orbit_value(host.orbit_base(), host.spacing_factor as int,
                host.planets@.len() as nat),
            body.orbit_period == period_value(body.orbit_radius as int, host.star.mass as int),
            body.orbit_position == 0,
            PLANET_MASS_MEAN - PLANET_MASS_SPREAD <= body.mass
                <= PLANET_MASS_MEAN + PLANET_MASS_SPREAD,
            PLANET_RADIUS_MEAN - PLANET_RADIUS_SPREAD <= body.radius
                <= PLANET_RADIUS_MEAN + PLANET_RADIUS_SPREAD,
    {
        let n = host.planets.len();
        let base: u64 = if n == 0 {
            host.get_inner_limit()
        } else {
            host.planets[0].orbit_radius
        };
        proof {
            lemma_nth_orbit_at_least_first(base as int, host.spacing_factor as int, n as nat);
            lemma_nth_orbit_doubling_bound(base as int, host.spacing_factor as int, n as nat);
            lemma2_to64();
            if (n as nat) < 15 {
                lemma_pow2_strictly_increases(n as nat, 15);
            }
            lemma_mul_inequality(base as int, 4_294_967_296, pow2(n as nat) as int);
            lemma_mul_inequality(pow2(n as nat) as int, 32768, 4_294_967_296);
            assert(4_294_967_296 * (pow2(n as nat) as int) == (pow2(n as nat) as int)
                * 4_294_967_296) by (nonlinear_arith);
        }
        let orbit_radius = match calculate_nth_orbit(base, host.spacing_factor, n as u32) {
            Some(radius) => radius,
            None => vstd::pervasive::unreached(),
        };
        let orbit_period = calculate_orbit_period_from_radius_and_mass(orbit_radius,
            host.star.mass);
        let angular_speed = calculate_angular_speed_from_period(orbit_period);
        let mass = sample_centered(&mut ctx.rng, PLANET_MASS_MEAN, PLANET_MASS_SPREAD);
        let radius = sample_centered(&mut ctx.rng, PLANET_RADIUS_MEAN, PLANET_RADIUS_SPREAD);
        Planet { mass, radius, orbit_radius, orbit_period, orbit_position: 0, angular_speed }
    }
}

/// The state of a planet after `ticks` ticks of length `dt` each.
pub open spec fn stepped_many(planet: Planet, dt: u64, ticks: nat) -> Planet
    decreases ticks,
{
    if ticks == 0 {
        planet
    } else {
        stepped_many(planet, dt, (ticks - 1) as nat).stepped(dt)
    }
}

/// Law: a planet in a valid orbit has its position inside `[0, 2 pi)`.
pub proof fn lemma_orbit_position_in_range(planet: Planet)
    requires
        planet.planet_wf(),
    ensures
        0 <= planet.orbit_position < TWO_PI_MILLI,
{
}

/// One tick keeps a planet's invariant and moves nothing but the orbit
/// position.
pub proof fn lemma_stepped_keeps_wf(planet: Planet, dt: u64)
    requires
        planet.planet_wf(),
    ensures
        planet.stepped(dt).planet_wf(),
        planet.stepped(dt).orbit_radius == planet.orbit_radius,
        planet.stepped(dt).mass == planet.mass,
{
    lemma_mod_division_less_than_divisor(
        planet.orbit_position + planet.angular_speed * dt, TWO_PI_MILLI as int);
    vstd::arithmetic::mul::lemma_mul_nonnegative(planet.angular_speed as int, dt as int);
}

/// Law: a planet's position stays inside `[0, 2 pi)` after any number of
/// ticks.
pub proof fn lemma_many_steps_keep_wf(planet: Planet, dt: u64, ticks: nat)
    requires
        planet.planet_wf(),
    ensures
        stepped_many(planet, dt, ticks).planet_wf(),
        0 <= stepped_many(planet, dt, ticks).orbit_position < TWO_PI_MILLI,
    decreases ticks,
{
    if ticks > 0 {
        lemma_many_steps_keep_wf(planet, dt, (ticks - 1) as nat);
        lemma_stepped_keeps_wf(stepped_many(planet, dt, (ticks - 1) as nat), dt);
    }
}

/// Law: a tick of zero elapsed time leaves a planet unchanged.
pub proof fn lemma_step_zero_elapsed(planet: Planet)
    requires
        planet.planet_wf(),
    ensures
        planet.stepped(0) == planet,
{
    crate::orbit::lemma_advance_zero_dt(planet.orbit_position as int,
        planet.angular_speed as int);
}

/// Repeated ticks move only the position, exactly as the accumulated
/// angular displacement says.
pub proof fn lemma_stepped_many_tracks_advanced(planet: Planet, dt: u64, ticks: nat)
    requires
        planet.planet_wf(),
    ensures
        stepped_many(planet, dt, ticks).orbit_position == advanced_many(
            planet.orbit_position as int, planet.angular_speed as int, dt as int, ticks),
        stepped_many(planet, dt, ticks) == (Planet {
            orbit_position: stepped_many(planet, dt, ticks).orbit_position,
            ..planet
        }),
    decreases ticks,
{
    if ticks > 0 {
        lemma_stepped_many_tracks_advanced(planet, dt, (ticks - 1) as nat);
        lemma_many_steps_keep_wf(planet, dt, (ticks - 1) as nat);
        lemma_mod_division_less_than_divisor(
            stepped_many(planet, dt, (ticks - 1) as nat).orbit_position
                + planet.angular_speed * dt, TWO_PI_MILLI as int);
        vstd::arithmetic::mul::lemma_mul_nonnegative(planet.angular_speed as int, dt as int);
    }
}

/// Law: whole revolutions return a planet to its starting state. Whenever
/// the total displacement of `ticks` ticks of length `dt` is an exact
/// multiple of a full turn (as with `angular_speed * dt * ticks` equal to
/// one revolution), the planet ends exactly where it began.
pub proof fn lemma_whole_revolutions_return(planet: Planet, dt: u64, ticks: nat)
    requires
        planet.planet_wf(),
        (ticks * ((planet.angular_speed as int) * (dt as int))) % (TWO_PI_MILLI as int) == 0,
    ensures
        stepped_many(planet, dt, ticks) == planet,
{
    lemma_stepped_many_tracks_advanced(planet, dt, ticks);
    crate::orbit::lemma_advance_whole_revolutions(planet.orbit_position as int,
        planet.angular_speed as int, dt as int, ticks);
}

impl Displayable for Planet {
    open spec fn display_name(&self) -> Seq<char> {
        "Planet"@
    }

    fn get_name(&self) -> (name: String) {
        String::from_str("Planet")
    }
}

} // verus!
