//! Solar systems: one star, an ordered sequence of planets whose orbit
//! radii climb the system's orbit ladder, and a constant spacing factor.

use vstd::prelude::*;

use crate::astrophysics::{
    calculate_density_from_mass_and_radius,
    calculate_nth_orbit, calculate_system_inner_limit_from_star_radius_and_density,
    density_value, inner_limit_value, nth_orbit_value,
};
use crate::celestial_bodies::{
    CanOrbit, CelestialBody, CelestialBodyType, Displayable, Orbitable,
};
use crate::planet::{Planet, PLANET_MASS_MEAN, PLANET_MASS_SPREAD};
use crate::sampling::{sample_centered, GenCtx};
use crate::star::{Star, STAR_MASS_MEAN, STAR_MASS_SPREAD, STAR_RADIUS_MEAN, STAR_RADIUS_SPREAD};
use crate::units::{FIRST_ORBIT_LIMIT, MASS_LIMIT, MAX_PLANETS, SCALE};

verus! {

/// Center of the spacing-factor distribution (0.4 units).
pub const SPACING_MEAN: u64 = 400;

/// Spread of the spacing-factor distribution (0.2 units).
pub const SPACING_SPREAD: u64 = 200;

/// Center of the planet-count distribution.
pub const PLANET_COUNT_MEAN: u64 = 5;

/// Spread of the planet-count distribution.
pub const PLANET_COUNT_SPREAD: u64 = 1;

/// Total mass of the planets of a system, in sequence order.
pub open spec fn planet_mass_sum(planets: Seq<Planet>) -> int
    decreases planets.len(),
{
    if planets.len() == 0 {
        0
    } else {
        planet_mass_sum(planets.drop_last()) + planets.last().mass
    }
}

/// A solar system: a star, its planets in increasing orbit order, and the
/// spacing factor the orbit ladder was built with.
#[derive(Debug)]
pub struct SolarSystem {
    pub star: Star,
    pub planets: Vec<Planet>,
    pub spacing_factor: u64,
}

impl SolarSystem {
    /// A system's invariant: a valid star, a positive spacing factor of at
    /// most one unit, at most [`MAX_PLANETS`] valid planets, and every
    /// orbit radius on the ladder grown from the first planet's orbit.
    pub open spec fn system_wf(&self) -> bool {
        &&& self.star.star_wf()
        &&& 1 <= self.spacing_factor <= SCALE
        &&& self.planets@.len() <= MAX_PLANETS
        &&& forall|i: int|
            0 <= i < self.planets@.len() ==> (#[trigger] self.planets@[i]).planet_wf()
        &&& self.planets@.len() > 0 ==> 1 <= self.planets@[0].orbit_radius <= FIRST_ORBIT_LIMIT
        &&& forall|i: int|
            0 <= i < self.planets@.len() ==> (#[trigger] self.planets@[i]).orbit_radius
                == nth_orbit_value(self.planets@[0].orbit_radius as int,
                self.spacing_factor as int, i as nat)
    }

    /// The base of the orbit ladder: the system's inner limit while no
    /// planet exists, the first planet's orbit radius afterwards.
    pub open spec fn orbit_base(&self) -> int {
        if self.planets@.len() == 0 {
            inner_limit_value(self.star.radius as int,
                density_value(self.star.mass as int, self.star.radius as int))
        } else {
            self.planets@[0].orbit_radius as int
        }
    }

    /// Star mass plus the mass of every planet, exactly.
    pub open spec fn total_mass(&self) -> int {
        self.star.mass + planet_mass_sum(self.planets@)
    }

    /// Build a system directly from its parts.
    pub fn new(star: Star, planets: Vec<Planet>, spacing_factor: u64) -> (system: SolarSystem)
        requires
            star.star_wf(),
            1 <= spacing_factor <= SCALE,
            planets@.len() <= MAX_PLANETS,
            forall|i: int| 0 <= i < planets@.len() ==> (#[trigger] planets@[i]).planet_wf(),
            planets@.len() > 0 ==> 1 <= planets@[0].orbit_radius <= FIRST_ORBIT_LIMIT,
            forall|i: int|
                0 <= i < planets@.len() ==> (#[trigger] planets@[i]).orbit_radius
                    == nth_orbit_value(planets@[0].orbit_radius as int, spacing_factor as int,
                    i as nat),
        ensures
            system.star == star,
            system.planets == planets,
            system.spacing_factor == spacing_factor,
            system.system_wf(),
    {
        SolarSystem { star, planets, spacing_factor }
    }

    /// An identical copy, handed to each planet-generation step as its
    /// host.
    pub fn snapshot(&self) -> (system: SolarSystem)
        ensures
            system.star == self.star,
            system.planets@ == self.planets@,
            system.spacing_factor == self.spacing_factor,
            system.orbit_base() == self.orbit_base(),
            self.system_wf() ==> system.system_wf(),
    {
        SolarSystem {
            star: self.star.duplicate(),
            planets: self.copy_planets(),
            spacing_factor: self.spacing_factor,
        }
    }

    /// A fresh vector holding the planet sequence.
    fn copy_planets(&self) -> (planets: Vec<Planet>)
        ensures
            planets@ == self.planets@,
    {
        let mut copied: Vec<Planet> = Vec::new();
        let mut i: usize = 0;
        while i < self.planets.len()
            invariant
                i <= self.planets@.len(),
                copied@ == self.planets@.take(i as int),
            decreases self.planets@.len() - i,
        {
            let planet = self.planets[i];
            copied.push(planet);
            proof {
                assert(self.planets@.take(i + 1int)
                    =~= self.planets@.take(i as int).push(self.planets@[i as int]));
            }
            i = i + 1;
        }
        proof {
            assert(self.planets@.take(self.planets@.len() as int) =~= self.planets@);
        }
        copied
    }

    /// How many planets the system holds.
    pub fn get_n_planets(&self) -> (count: usize)
        ensures
            count == self.planets@.len(),
    {
        self.planets.len()
    }

    /// The star's mass.
    pub fn get_star_mass(&self) -> (mass: u64)
        ensures
            mass == self.star.mass,
    {
        self.star.mass
    }

    /// A copy of the star.
    pub fn get_star(&self) -> (star: Star)
        ensures
            star == self.star,
    {
        self.star.duplicate()
    }

    /// A copy of the planet sequence.
    pub fn get_planets(&self) -> (planets: Vec<Planet>)
        ensures
            planets@ == self.planets@,
    {
        self.copy_planets()
    }

    /// The minimum safe orbit radius around this system's star.
    pub fn get_inner_limit(&self) -> (limit: u64)
        requires
            self.star.star_wf(),
        ensures
            limit == inner_limit_value(self.star.radius as int,
                density_value(self.star.mass as int, self.star.radius as int)),
            self.star.radius < limit <= 2 * self.star.radius + 1,
    {
        calculate_system_inner_limit_from_star_radius_and_density(
            self.star.radius,
            calculate_density_from_mass_and_radius(self.star.mass, self.star.radius),
        )
    }

    /// The `n`th rung of the system's orbit ladder, grown from the first
    /// planet's orbit radius; zero for a system without planets, `None`
    /// where the rung leaves the representable range.
    pub fn get_nth_orbit_radius(&self, n: u32) -> (radius: Option<u64>)
        requires
            self.system_wf(),
        ensures
            self.planets@.len() == 0 ==> radius == Some(0u64),
            self.planets@.len() > 0 ==> (radius is Some <==> nth_orbit_value(
                self.planets@[0].orbit_radius as int, self.spacing_factor as int, n as nat)
                <= u64::MAX),
            self.planets@.len() > 0 ==> (radius matches Some(v) ==> v == nth_orbit_value(
                self.planets@[0].orbit_radius as int, self.spacing_factor as int, n as nat)),
    {
        if self.planets.len() > 0 {
            calculate_nth_orbit(self.planets[0].orbit_radius, self.spacing_factor, n)
        } else {
            Some(0)
        }
    }
}

impl CelestialBody for SolarSystem {
    type HostType = ();

    open spec fn wf(&self) -> bool {
        self.system_wf()
    }

    open spec fn kind(&self) -> CelestialBodyType {
        CelestialBodyType::SolarSystem
    }

    open spec fn mass_value(&self) -> u64 {
        self.total_mass() as u64
    }

    /// The sentinel for a system without planets is zero; otherwise the
    /// outermost planet's orbit radius.
    open spec fn radius_value(&self) -> u64 {
        if self.planets@.len() == 0 {
            0u64
        } else {
            self.planets@.last().orbit_radius
        }
    }

    /// A system can be generated whenever the name table is non-empty.
    open spec fn gen_ok(host: (), ctx: GenCtx) -> bool {
        ctx.names.len() >= 1
    }

    fn get_type(&self) -> (body_type: CelestialBodyType) {
        CelestialBodyType::SolarSystem
    }

    /// Star mass plus every planet's mass, exactly.
    fn get_mass(&self) -> (mass: u64)
        ensures
            mass == self.total_mass(),
    {
        let mut total: u64 = self.star.mass;
        let mut i: usize = 0;
        while i < self.planets.len()
            invariant
                self.system_wf(),
                i <= self.planets@.len(),
                total == self.star.mass + planet_mass_sum(self.planets@.take(i as int)),
                total <= MASS_LIMIT + i * MASS_LIMIT,
            decreases self.planets@.len() - i,
        {
            proof {
                assert(self.planets@.take(i + 1int).drop_last()
                    =~= self.planets@.take(i as int));
                assert(self.planets@.take(i + 1int).last() == self.planets@[i as int]);
            }
            total = total + self.planets[i].mass;
            i = i + 1;
        }
        proof {
            assert(self.planets@.take(self.planets@.len() as int) =~= self.planets@);
        }
        total
    }

    /// The orbit radius of the outermost planet, or the documented zero
    /// sentinel for a system without planets.
    fn get_radius(&self) -> (radius: u64) {
        if self.planets.len() == 0 {
            0
        } else {
            self.planets[self.planets.len() - 1].orbit_radius
        }
    }

    /// Samples the spacing factor, generates the star, samples the planet
    /// count, then grows the planet sequence one planet at a time, each
    /// planet consuming a snapshot of the system built so far.
    fn generate(host: (), ctx: &mut GenCtx) -> (body: Self)
        ensures
            SPACING_MEAN - SPACING_SPREAD <= body.spacing_factor
                <= SPACING_MEAN + SPACING_SPREAD,
            PLANET_COUNT_MEAN - PLANET_COUNT_SPREAD <= body.planets@.len()
                <= PLANET_COUNT_MEAN + PLANET_COUNT_SPREAD,
            exists|i: int|
                0 <= i < old(ctx).names@.len() && body.star.name == old(ctx).names@[i],
            STAR_MASS_MEAN - STAR_MASS_SPREAD <= body.star.mass
                <= STAR_MASS_MEAN + STAR_MASS_SPREAD,
            STAR_RADIUS_MEAN - STAR_RADIUS_SPREAD <= body.star.radius
                <= STAR_RADIUS_MEAN + STAR_RADIUS_SPREAD,
            forall|i: int|
                0 <= i < body.planets@.len() ==> PLANET_MASS_MEAN - PLANET_MASS_SPREAD <= (
                #[trigger] body.planets@[i]).mass <= PLANET_MASS_MEAN + PLANET_MASS_SPREAD,
            forall|i: int| 0 <= i < body.planets@.len() ==> (#[trigger] body.planets@[i]).orbit_position == 0,
    {
        let spacing_factor = sample_centered(&mut ctx.rng, SPACING_MEAN, SPACING_SPREAD);
        let star = Star::generate((), ctx);
        let count = sample_centered(&mut ctx.rng, PLANET_COUNT_MEAN, PLANET_COUNT_SPREAD);
        let mut system = SolarSystem { star, planets: Vec::new(), spacing_factor };
        let mut k: u64 = 0;
        while k < count
            invariant
                system.system_wf(),
                system.planets@.len() == k,
                k <= count,
                count <= PLANET_COUNT_MEAN + PLANET_COUNT_SPREAD,
                SPACING_MEAN - SPACING_SPREAD <= system.spacing_factor
                    <= SPACING_MEAN + SPACING_SPREAD,
                ctx.names == old(ctx).names,
                exists|i: int|
                    0 <= i < old(ctx).names@.len() && system.star.name == old(ctx).names@[i],
                STAR_MASS_MEAN - STAR_MASS_SPREAD <= system.star.mass
                    <= STAR_MASS_MEAN + STAR_MASS_SPREAD,
                STAR_RADIUS_MEAN - STAR_RADIUS_SPREAD <= system.star.radius
                    <= STAR_RADIUS_MEAN + STAR_RADIUS_SPREAD,
                forall|i: int|
                    0 <= i < system.planets@.len() ==> PLANET_MASS_MEAN - PLANET_MASS_SPREAD
                        <= (#[trigger] system.planets@[i]).mass
                        <= PLANET_MASS_MEAN + PLANET_MASS_SPREAD,
                forall|i: int|
                    0 <= i < system.planets@.len() ==> (#[trigger] system.planets@[
                    i]).orbit_position == 0,
            decreases count - k,
        {
            let host_snapshot = system.snapshot();
            let planet = Planet::generate(host_snapshot, ctx);
            proof {
                let olds = system.planets@;
                let news = olds.push(planet);
                if olds.len() == 0 {
                    assert(planet.orbit_radius as int == system.orbit_base());
                    assert(news[0] == planet);
                    assert(nth_orbit_value(planet.orbit_radius as int,
                        system.spacing_factor as int, 0) == planet.orbit_radius as int);
                } else {
                    assert(news[0] == olds[0]);
                    assert(forall|i: int|
                        0 <= i < olds.len() ==> news[i] == olds[i]);
                }
            }
            system.planets.push(planet);
            k = k + 1;
        }
        system
    }
}

impl Orbitable for SolarSystem {
    type SatelliteType = Planet;

    open spec fn orbits_wf(&self) -> bool {
        self.system_wf()
    }

    open spec fn satellites(&self) -> Seq<Planet> {
        self.planets@
    }

    fn get_satellites(&self) -> (satellites: Vec<Planet>) {
        self.copy_planets()
    }

    /// Advance every planet by one tick of length `dt`; orbit radii,
    /// masses and the planet count are untouched.
    fn update_orbits(&mut self, dt: u64)
        ensures
            final(self).star == old(self).star,
            final(self).spacing_factor == old(self).spacing_factor,
    {
        let n = self.planets.len();
        let mut updated: Vec<Planet> = Vec::new();
        let mut i: usize = 0;
        while i < n
            invariant
                *self == *old(self),
                old(self).system_wf(),
                n == self.planets@.len(),
                i <= n,
                updated@.len() == i as int,
                forall|j: int|
                    0 <= j < i ==> #[trigger] updated@[j] == old(self).planets@[j].stepped(dt),
                forall|j: int| 0 <= j < i ==> (#[trigger] updated@[j]).planet_wf(),
            decreases n - i,
        {
            let mut planet = self.planets[i];
            planet.update_orbit_position(dt);
            updated.push(planet);
            i = i + 1;
        }
        self.planets = updated;
        proof {
            assert(forall|j: int|
                0 <= j < n ==> (#[trigger] self.planets@[j]).orbit_radius
                    == old(self).planets@[j].orbit_radius);
        }
    }
}

/// Law: a tick of zero elapsed time changes no planet of a valid system,
/// so `update_orbits` with `dt == 0` leaves every orbit position where it
/// was.
pub proof fn lemma_update_zero_elapsed(system: SolarSystem)
    requires
        system.system_wf(),
    ensures
        forall|i: int|
            0 <= i < system.planets@.len() ==> (#[trigger] system.planets@[i]).stepped(0)
                == system.planets@[i],
{
    assert forall|i: int|
        0 <= i < system.planets@.len() implies (#[trigger] system.planets@[i]).stepped(0)
        == system.planets@[i] by {
        crate::planet::lemma_step_zero_elapsed(system.planets@[i]);
    }
}

/// Law: in a valid system, orbit radii strictly increase in sequence
/// order.
pub proof fn lemma_orbit_radii_strictly_increasing(system: SolarSystem, i: int, j: int)
    requires
        system.system_wf(),
        0 <= i < j < system.planets@.len(),
    ensures
        system.planets@[i].orbit_radius < system.planets@[j].orbit_radius,
{
    crate::astrophysics::lemma_nth_orbit_strict_monotone(
        system.planets@[0].orbit_radius as int, system.spacing_factor as int, i as nat,
        j as nat);
}

impl Displayable for SolarSystem {
    /// A system is shown under its star's name.
    open spec fn display_name(&self) -> Seq<char> {
        self.star.name@
    }

    fn get_name(&self) -> (name: String) {
        self.star.name.clone()
    }
}

} // verus!
