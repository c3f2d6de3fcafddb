//! Pure astrophysical relations: sphere density, the inner limit of a
//! system, the geometric ladder of orbit radii, and the Kepler-like
//! period and angular-speed derivations.
//!
//! Each executable function returns exactly the value of its spec-level
//! counterpart; the lemmas at the end establish the ordering and growth
//! facts that solar-system generation relies on.

use vstd::prelude::*;
use vstd::arithmetic::div_mod::{
    lemma_div_is_ordered, lemma_div_is_ordered_by_denominator, lemma_div_nonincreasing,
    lemma_div_pos_is_pos, lemma_hoist_over_denominator,
};
use vstd::arithmetic::mul::{lemma_mul_inequality, lemma_mul_nonnegative};
use vstd::arithmetic::power2::{lemma_pow2_unfold, pow2};

use crate::units::{MASS_LIMIT, ORBIT_RADIUS_LIMIT, PERIOD_LIMIT, PI_MILLI, RADIUS_LIMIT, SCALE,
    SCALE_P4, SCALE_SQ, TWO_PI_MILLI};

verus! {

/// Sphere density on the fixed-point scale: `3 m / (4 pi r^3)`, with the
/// scale factors folded in so that the result is again a milli-unit value.
pub open spec fn density_value(mass: int, radius: int) -> int {
    (3 * mass * (SCALE_P4 as int)) / (4 * (PI_MILLI as int) * radius * radius * radius)
}

/// The closest orbit a star admits: strictly outside the star itself, and
/// pushed further out the denser the star is (clamped so that the limit
/// never exceeds twice the star radius plus one).
pub open spec fn inner_limit_value(radius: int, density: int) -> int {
    let lift = (radius * density) / (SCALE_SQ as int);
    radius + 1 + if lift < radius { lift } else { radius }
}

/// One rung of the orbit ladder: the gap added above a previous orbit
/// `prev` under spacing factor `spacing`, rounded up so that a positive
/// spacing always moves outward.
pub open spec fn orbit_step(prev: int, spacing: int) -> int {
    (prev * spacing + (SCALE - 1)) / (SCALE as int)
}

/// Radius of the `n`th orbit: the first orbit radius compounded `n` times
/// by the spacing factor. `n == 0` gives the first radius itself.
pub open spec fn nth_orbit_value(first: int, spacing: int, n: nat) -> int
    decreases n,
{
    if n == 0 {
        first
    } else {
        let prev = nth_orbit_value(first, spacing, (n - 1) as nat);
        prev + orbit_step(prev, spacing)
    }
}

/// Kepler-like period: grows linearly with the orbit radius and shrinks
/// with the host mass, floored at one tick.
pub open spec fn period_value(orbit_radius: int, host_mass: int) -> int {
    let p = (orbit_radius * (SCALE as int)) / host_mass;
    if p < 1 {
        1
    } else {
        p
    }
}

/// Angular speed from the period: one revolution spread over the period,
/// floored at one milli-radian per tick so that a body always moves.
pub open spec fn speed_value(period: int) -> int {
    let s = (TWO_PI_MILLI as int) / period;
    if s < 1 {
        1
    } else {
        s
    }
}

/// Density of a sphere of the given mass and radius. Undefined for a
/// non-positive radius, which the precondition excludes.
pub fn calculate_density_from_mass_and_radius(mass: u64, radius: u64) -> (density: u64)
    requires
        mass <= MASS_LIMIT,
        1 <= radius <= RADIUS_LIMIT,
    ensures
        density == density_value(mass as int, radius as int),
{
    proof {
        assert(3 * (mass as int) * (SCALE_P4 as int) <= 3_000_000_000_000_000_000_000int
            && 0 <= 3 * (mass as int) * (SCALE_P4 as int)) by (nonlinear_arith)
            requires
                mass <= 1_000_000_000,
                SCALE_P4 == 1_000_000_000_000;
    }
    let numerator: u128 = 3 * (mass as u128) * (SCALE_P4 as u128);
    let r: u128 = radius as u128;
    proof {
        assert((radius as int) * (radius as int) <= (RADIUS_LIMIT as int) * (RADIUS_LIMIT as int))
            by (nonlinear_arith)
            requires 1 <= radius <= RADIUS_LIMIT;
        assert(1 <= (radius as int) * (radius as int)) by (nonlinear_arith)
            requires 1 <= radius;
    }
    let r2: u128 = r * r;
    proof {
        assert(r2 * r <= (1_000_000_000_000_000_000u128 as int) * (RADIUS_LIMIT as int)
            && 1 <= r2 * r) by (nonlinear_arith)
            requires
                1 <= r2 <= 1_000_000_000_000_000_000u128,
                1 <= r <= RADIUS_LIMIT;
    }
    let r3: u128 = r2 * r;
    proof {
        assert(4 * (PI_MILLI as int) * (r3 as int)
            <= 13_000_000_000_000_000_000_000_000_000_000_000int
            && 4 * (PI_MILLI as int) <= 4 * (PI_MILLI as int) * (r3 as int))
            by (nonlinear_arith)
            requires
                1 <= r3 <= 1_000_000_000_000_000_000_000_000_000int,
                PI_MILLI == 3141;
    }
    let denominator: u128 = 4 * (PI_MILLI as u128) * r3;
    let quotient: u128 = numerator / denominator;
    proof {
        assert(denominator as int == 4 * (PI_MILLI as int) * (radius as int) * (radius as int)
            * (radius as int)) by (nonlinear_arith)
            requires
                denominator == 4 * (PI_MILLI as int) * (r3 as int),
                r3 == (radius as int) * (radius as int) * (radius as int);
        lemma_div_is_ordered_by_denominator(numerator as int, 4 * (PI_MILLI as int),
            denominator as int);
        lemma_div_is_ordered(numerator as int, 3_000_000_000_000_000_000_000int,
            4 * (PI_MILLI as int));
        assert(3_000_000_000_000_000_000_000int / 12564 <= u64::MAX as int);
    }
    quotient as u64
}

/// The minimum safe orbit radius around a star of the given radius and
/// density.
pub fn calculate_system_inner_limit_from_star_radius_and_density(radius: u64, density: u64) -> (
    limit: u64)
    requires
        1 <= radius <= RADIUS_LIMIT,
    ensures
        limit == inner_limit_value(radius as int, density as int),
        radius < limit <= 2 * radius + 1,
{
    proof {
        assert((radius as int) * (density as int) <= (RADIUS_LIMIT as int) * (u64::MAX as int))
            by (nonlinear_arith)
            requires
                radius <= RADIUS_LIMIT,
                density <= u64::MAX;
    }
    let scaled: u128 = (radius as u128) * (density as u128);
    let lift: u128 = scaled / (SCALE_SQ as u128);
    let capped: u64 = if lift < radius as u128 {
        lift as u64
    } else {
        radius
    };
    radius + 1 + capped
}

/// Radius of the `n`th orbit above `first`, or `None` where the ladder
/// leaves the representable range.
pub fn calculate_nth_orbit(first: u64, spacing: u64, n: u32) -> (orbit: Option<u64>)
    requires
        spacing <= 0xffff_ffff,
    ensures
        orbit is Some <==> nth_orbit_value(first as int, spacing as int, n as nat) <= u64::MAX,
        orbit matches Some(v) ==> v == nth_orbit_value(first as int, spacing as int, n as nat),
{
    let mut current: u64 = first;
    let mut k: u32 = 0;
    while k < n
        invariant
            k <= n,
            spacing <= 0xffff_ffff,
            current == nth_orbit_value(first as int, spacing as int, k as nat),
        decreases n - k,
    {
        proof {
            assert((current as int) * (spacing as int) <= (u64::MAX as int) * 0xffff_ffff)
                by (nonlinear_arith)
                requires
                    current <= u64::MAX,
                    spacing <= 0xffff_ffff;
        }
        let product: u128 = (current as u128) * (spacing as u128);
        proof {
            lemma_div_nonincreasing(product + (SCALE - 1), SCALE as int);
        }
        let step: u128 = (product + ((SCALE - 1) as u128)) / (SCALE as u128);
        let next: u128 = (current as u128) + step;
        if next > u64::MAX as u128 {
            proof {
                lemma_nth_orbit_monotone(first as int, spacing as int, (k + 1) as nat, n as nat);
            }
            return None;
        }
        current = next as u64;
        k = k + 1;
    }
    Some(current)
}

/// Orbit period from the orbit radius and the host mass.
pub fn calculate_orbit_period_from_radius_and_mass(orbit_radius: u64, host_mass: u64) -> (
    period: u64)
    requires
        1 <= host_mass,
        orbit_radius <= ORBIT_RADIUS_LIMIT,
    ensures
        period == period_value(orbit_radius as int, host_mass as int),
        1 <= period <= PERIOD_LIMIT,
{
    let scaled: u64 = orbit_radius * SCALE;
    let quotient: u64 = scaled / host_mass;
    proof {
        lemma_div_is_ordered_by_denominator(scaled as int, 1, host_mass as int);
    }
    if quotient < 1 {
        1
    } else {
        quotient
    }
}

/// Angular speed from the orbit period.
pub fn calculate_angular_speed_from_period(period: u64) -> (speed: u64)
    requires
        1 <= period,
    ensures
        speed == speed_value(period as int),
        1 <= speed <= TWO_PI_MILLI,
{
    let quotient: u64 = TWO_PI_MILLI / period;
    if quotient < 1 {
        1
    } else {
        quotient
    }
}

/// Law: the ladder starts at the first orbit radius itself.
pub proof fn lemma_nth_orbit_first(first: int, spacing: int)
    ensures
        nth_orbit_value(first, spacing, 0) == first,
{
}

/// The ladder never descends: every orbit lies at or above the first one,
/// and in particular is non-negative whenever the first one is.
pub proof fn lemma_nth_orbit_at_least_first(first: int, spacing: int, n: nat)
    requires
        0 <= first,
        0 <= spacing,
    ensures
        first <= nth_orbit_value(first, spacing, n),
    decreases n,
{
    if n > 0 {
        lemma_nth_orbit_at_least_first(first, spacing, (n - 1) as nat);
        let prev = nth_orbit_value(first, spacing, (n - 1) as nat);
        lemma_mul_nonnegative(prev, spacing);
        lemma_div_pos_is_pos(prev * spacing + (SCALE - 1), SCALE as int);
    }
}

/// The orbit-radius ladder is strictly increasing from one orbit index to
/// the next whenever the first radius and the spacing factor are positive.
pub proof fn lemma_nth_orbit_strictly_increasing(first: int, spacing: int, n: nat)
    requires
        1 <= first,
        1 <= spacing,
    ensures
        nth_orbit_value(first, spacing, n) < nth_orbit_value(first, spacing, (n + 1) as nat),
{
    let prev = nth_orbit_value(first, spacing, n);
    lemma_nth_orbit_at_least_first(first, spacing, n);
    assert(prev * spacing >= 1) by (nonlinear_arith)
        requires prev >= 1 && spacing >= 1;
    lemma_div_is_ordered(SCALE as int, prev * spacing + (SCALE - 1), SCALE as int);
    assert((SCALE as int) / (SCALE as int) == 1);
}

/// Monotonicity of the ladder in the orbit index.
pub proof fn lemma_nth_orbit_monotone(first: int, spacing: int, lo: nat, hi: nat)
    requires
        0 <= first,
        0 <= spacing,
        lo <= hi,
    ensures
        nth_orbit_value(first, spacing, lo) <= nth_orbit_value(first, spacing, hi),
    decreases hi,
{
    if lo < hi {
        lemma_nth_orbit_monotone(first, spacing, lo, (hi - 1) as nat);
        let prev = nth_orbit_value(first, spacing, (hi - 1) as nat);
        lemma_nth_orbit_at_least_first(first, spacing, (hi - 1) as nat);
        lemma_mul_nonnegative(prev, spacing);
        lemma_div_pos_is_pos(prev * spacing + (SCALE - 1), SCALE as int);
    }
}

/// Strict monotonicity of the ladder between any two orbit indices.
pub proof fn lemma_nth_orbit_strict_monotone(first: int, spacing: int, lo: nat, hi: nat)
    requires
        1 <= first,
        1 <= spacing,
        lo < hi,
    ensures
        nth_orbit_value(first, spacing, lo) < nth_orbit_value(first, spacing, hi),
    decreases hi,
{
    if lo + 1 == hi {
        lemma_nth_orbit_strictly_increasing(first, spacing, lo);
    } else {
        lemma_nth_orbit_strict_monotone(first, spacing, lo, (hi - 1) as nat);
        lemma_nth_orbit_strictly_increasing(first, spacing, (hi - 1) as nat);
    }
}

/// With a spacing factor of at most one unit, each rung at most doubles
/// the radius, so the ladder is bounded by `first * 2^n`.
pub proof fn lemma_nth_orbit_doubling_bound(first: int, spacing: int, n: nat)
    requires
        0 <= first,
        0 <= spacing <= SCALE,
    ensures
        nth_orbit_value(first, spacing, n) <= first * pow2(n),
    decreases n,
{
    if n == 0 {
        assert(pow2(0) == 1) by {
            vstd::arithmetic::power2::lemma2_to64();
        }
    } else {
        lemma_nth_orbit_doubling_bound(first, spacing, (n - 1) as nat);
        lemma_nth_orbit_at_least_first(first, spacing, (n - 1) as nat);
        let prev = nth_orbit_value(first, spacing, (n - 1) as nat);
        lemma_mul_inequality(spacing, SCALE as int, prev);
        assert(spacing * prev == prev * spacing) by (nonlinear_arith);
        assert((SCALE as int) * prev == prev * (SCALE as int)) by (nonlinear_arith);
        lemma_div_is_ordered(prev * spacing + (SCALE - 1), prev * (SCALE as int) + (SCALE - 1),
            SCALE as int);
        lemma_hoist_over_denominator((SCALE - 1) as int, prev, SCALE as nat);
        assert(((SCALE - 1) as int) / (SCALE as int) == 0);
        assert(nth_orbit_value(first, spacing, n) <= 2 * prev);
        lemma_pow2_unfold(n);
        assert(2 * prev <= 2 * (first * pow2((n - 1) as nat)));
        assert(2 * (first * pow2((n - 1) as nat)) == first * (2 * pow2((n - 1) as nat)))
            by (nonlinear_arith);
    }
}

} // verus!
