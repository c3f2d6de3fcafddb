//! Stars: independently generated bodies with a name drawn from the name
//! table and mass and radius drawn from centered distributions.

use vstd::prelude::*;

use crate::celestial_bodies::{CelestialBody, CelestialBodyType, Displayable, MenuColor};
use crate::sampling::{sample_centered, sample_index, GenCtx};
use crate::units::{MASS_LIMIT, RADIUS_LIMIT};

verus! {

/// Center of the stellar mass distribution (one solar mass).
pub const STAR_MASS_MEAN: u64 = 1000;

/// Spread of the stellar mass distribution.
pub const STAR_MASS_SPREAD: u64 = 300;

/// Center of the stellar radius distribution (one solar radius).
pub const STAR_RADIUS_MEAN: u64 = 1000;

/// Spread of the stellar radius distribution.
pub const STAR_RADIUS_SPREAD: u64 = 300;

/// A star: immutable after generation, owned by its solar system.
#[derive(Debug)]
pub struct Star {
    pub name: String,
    pub mass: u64,
    pub radius: u64,
}

impl Star {
    /// A star's invariant: positive, bounded mass and radius.
    pub open spec fn star_wf(&self) -> bool {
        &&& 1 <= self.mass <= MASS_LIMIT
        &&& 1 <= self.radius <= RADIUS_LIMIT
    }

    /// Build a star directly from its parts.
    pub fn new(name: String, mass: u64, radius: u64) -> (star: Star)
        requires
            1 <= mass <= MASS_LIMIT,
            1 <= radius <= RADIUS_LIMIT,
        ensures
            star == (Star { name, mass, radius }),
            star.star_wf(),
    {
        Star { name, mass, radius }
    }

    /// An identical copy.
    pub fn duplicate(&self) -> (star: Star)
        ensures
            star == *self,
    {
        Star { name: self.name.clone(), mass: self.mass, radius: self.radius }
    }
}

impl CelestialBody for Star {
    type HostType = ();

    open spec fn wf(&self) -> bool {
        self.star_wf()
    }

    open spec fn kind(&self) -> CelestialBodyType {
        CelestialBodyType::Star
    }

    open spec fn mass_value(&self) -> u64 {
        self.mass
    }

    open spec fn radius_value(&self) -> u64 {
        self.radius
    }

    /// A star can be generated whenever the name table is non-empty; an
    /// empty table is a fatal configuration error the caller must rule
    /// out before generation starts.
    open spec fn gen_ok(host: (), ctx: GenCtx) -> bool {
        ctx.names.len() >= 1
    }

    fn get_type(&self) -> (body_type: CelestialBodyType) {
        CelestialBodyType::Star
    }

    fn get_mass(&self) -> (mass: u64) {
        self.mass
    }

    fn get_radius(&self) -> (radius: u64) {
        self.radius
    }

    /// Mass and radius come from the stellar distributions; the name is a
    /// uniform draw from the name table (repeats across stars are
    /// acceptable).
    fn generate(host: (), ctx: &mut GenCtx) -> (body: Self)
        ensures
            STAR_MASS_MEAN - STAR_MASS_SPREAD <= body.mass
                <= STAR_MASS_MEAN + STAR_MASS_SPREAD,
            STAR_RADIUS_MEAN - STAR_RADIUS_SPREAD <= body.radius
                <= STAR_RADIUS_MEAN + STAR_RADIUS_SPREAD,
            exists|i: int|
                0 <= i < old(ctx).names@.len() && body.name == old(ctx).names@[i],
    {
        let mass = sample_centered(&mut ctx.rng, STAR_MASS_MEAN, STAR_MASS_SPREAD);
        let radius = sample_centered(&mut ctx.rng, STAR_RADIUS_MEAN, STAR_RADIUS_SPREAD);
        let index = sample_index(&mut ctx.rng, ctx.names.len());
        let name = ctx.names[index].clone();
        proof {
            assert(0 <= index < ctx.names@.len() && name == ctx.names@[index as int]);
        }
        Star { name, mass, radius }
    }
}

impl Displayable for Star {
    open spec fn display_name(&self) -> Seq<char> {
        self.name@
    }

    fn get_name(&self) -> (name: String) {
        self.name.clone()
    }

    fn get_menu_color(&self) -> (color: MenuColor)
        ensures
            color == MenuColor::Yellow,
    {
        MenuColor::Yellow
    }
}

} // verus!
