use orrery::astrophysics::{
    calculate_angular_speed_from_period, calculate_density_from_mass_and_radius,
    calculate_nth_orbit, calculate_orbit_period_from_radius_and_mass,
    calculate_system_inner_limit_from_star_radius_and_density,
};
use orrery::celestial_bodies::{
    CanOrbit, CelestialBody, CelestialBodyType, Displayable, MenuColor, Orbitable,
};
use orrery::orbit::advance_position;
use orrery::planet::Planet;
use orrery::sampling::GenCtx;
use orrery::solar_system::SolarSystem;
use orrery::star::Star;

fn ladder_system() -> SolarSystem {
    let star = Star::new("Sun".to_string(), 10_000, 1_000);
    let planets = vec![
        Planet::new(1_000, 100, 100, 61, 0),
        Planet::new(2_000, 110, 150, 1_001, 0),
        Planet::new(3_000, 120, 225, 4_000, 0),
    ];
    SolarSystem::new(star, planets, 500)
}

#[test]
fn nth_orbit_starts_at_first_radius() {
    assert_eq!(calculate_nth_orbit(100, 500, 0), Some(100));
    assert_eq!(calculate_nth_orbit(1, 1, 0), Some(1));
    assert_eq!(calculate_nth_orbit(0, 500, 0), Some(0));
}

#[test]
fn nth_orbit_exact_ladder() {
    assert_eq!(calculate_nth_orbit(100, 500, 1), Some(150));
    assert_eq!(calculate_nth_orbit(100, 500, 2), Some(225));
    assert_eq!(calculate_nth_orbit(100, 500, 3), Some(338));
}

#[test]
fn nth_orbit_zero_spacing_is_constant() {
    assert_eq!(calculate_nth_orbit(100, 0, 5), Some(100));
    assert_eq!(calculate_nth_orbit(7, 0, 1_000), Some(7));
}

#[test]
fn nth_orbit_strictly_increasing() {
    let mut previous: u64 = 0;
    for n in 0u32..20 {
        let radius = calculate_nth_orbit(100, 500, n).unwrap();
        if n > 0 {
            assert!(radius > previous);
        }
        previous = radius;
    }
}

#[test]
fn nth_orbit_overflow_is_none() {
    assert_eq!(calculate_nth_orbit(u64::MAX, 1_000, 1), None);
    assert_eq!(calculate_nth_orbit(1 << 60, 1_000, 10), None);
}

#[test]
fn density_exact_value() {
    // 3 * 1000 * 10^12 / (4 * 3141 * 1000^3) = 238 after flooring.
    assert_eq!(calculate_density_from_mass_and_radius(1_000, 1_000), 238);
}

#[test]
fn inner_limit_exact_value() {
    assert_eq!(calculate_system_inner_limit_from_star_radius_and_density(1_000, 238), 1_001);
    // A dense star pushes the limit out, capped at twice the radius plus one.
    assert_eq!(calculate_system_inner_limit_from_star_radius_and_density(1_000, u64::MAX), 2_001);
}

#[test]
fn period_and_speed_exact_values() {
    assert_eq!(calculate_orbit_period_from_radius_and_mass(1_001, 1_000), 1_001);
    assert_eq!(calculate_angular_speed_from_period(1_001), 6);
    // Floors: a tight orbit around a heavy star, a very long period.
    assert_eq!(calculate_orbit_period_from_radius_and_mass(1, 1_000_000_000), 1);
    assert_eq!(calculate_angular_speed_from_period(10_000), 1);
}

#[test]
fn advance_position_wraps() {
    assert_eq!(advance_position(100, 10, 5), 150);
    assert_eq!(advance_position(6_000, 100, 3), 17);
    assert_eq!(advance_position(0, 6_283, 1), 0);
}

#[test]
fn zero_elapsed_time_changes_nothing() {
    let mut planet = Planet::new(100, 100, 1_000, 61, 123);
    for _ in 0..5 {
        planet.update_orbit_position(0);
        assert_eq!(planet.get_orbit_position(), 123);
    }
}

#[test]
fn whole_revolution_returns_to_start() {
    // Period 61 gives angular speed 6283 / 61 = 103; 61 ticks of one time
    // unit sweep exactly 6283 milli-radians, one full turn.
    let mut planet = Planet::new(100, 100, 1_000, 61, 123);
    assert_eq!(planet.get_angular_speed(), 103);
    for _ in 0..61 {
        planet.update_orbit_position(1);
    }
    assert_eq!(planet.get_orbit_position(), 123);
}

#[test]
fn position_stays_normalized() {
    let mut planet = Planet::new(100, 100, 1_000, 61, 6_282);
    for _ in 0..1_000 {
        planet.update_orbit_position(7);
        assert!(planet.get_orbit_position() < 6_283);
    }
}

#[test]
fn system_mass_is_exact_sum() {
    let system = ladder_system();
    assert_eq!(system.get_mass(), 16_000);
    assert_eq!(system.get_star_mass(), 10_000);
    assert_eq!(system.get_n_planets(), 3);
}

#[test]
fn zero_planet_system_sentinels() {
    let star = Star::new("Lone".to_string(), 1_000, 1_000);
    let system = SolarSystem::new(star, Vec::new(), 500);
    assert_eq!(system.get_nth_orbit_radius(0), Some(0));
    assert_eq!(system.get_nth_orbit_radius(7), Some(0));
    assert_eq!(system.get_nth_orbit_radius(1_000_000), Some(0));
    assert_eq!(system.get_radius(), 0);
    assert_eq!(system.get_mass(), 1_000);
}

#[test]
fn nth_orbit_radius_follows_first_planet() {
    let system = ladder_system();
    assert_eq!(system.get_nth_orbit_radius(0), Some(100));
    assert_eq!(system.get_nth_orbit_radius(1), Some(150));
    assert_eq!(system.get_nth_orbit_radius(2), Some(225));
    assert_eq!(system.get_nth_orbit_radius(5), Some(761));
}

#[test]
fn single_name_table_always_names_sol() {
    for seed in 0u64..10 {
        let mut ctx = GenCtx::new(seed, vec!["Sol".to_string()]);
        let star = Star::generate((), &mut ctx);
        assert_eq!(star.get_name(), "Sol");
    }
}

#[test]
fn generated_system_meets_invariants() {
    let names = vec!["Alpha".to_string(), "Beta".to_string(), "Gamma".to_string()];
    let mut ctx = GenCtx::new(42, names.clone());
    let system = SolarSystem::generate((), &mut ctx);

    let n = system.get_n_planets();
    assert!((4..=6).contains(&n));
    assert!((200..=600).contains(&system.spacing_factor));
    assert!((700..=1_300).contains(&system.get_star_mass()));
    assert!((700..=1_300).contains(&system.get_star().radius));
    assert!(names.contains(&system.get_name()));

    let planets = system.get_planets();
    let mut total: u64 = system.get_star_mass();
    for (i, planet) in planets.iter().enumerate() {
        assert!((50..=150).contains(&planet.get_mass()));
        assert!((50..=150).contains(&planet.get_radius()));
        assert_eq!(planet.get_orbit_position(), 0);
        assert!(planet.get_angular_speed() >= 1);
        if i > 0 {
            assert!(planet.get_orbit_radius() > planets[i - 1].get_orbit_radius());
        }
        total += planet.get_mass();
    }
    assert_eq!(system.get_mass(), total);
}

#[test]
fn generation_is_deterministic_in_the_seed() {
    let names = vec!["Alpha".to_string(), "Beta".to_string()];
    let a = SolarSystem::generate((), &mut GenCtx::new(7, names.clone()));
    let b = SolarSystem::generate((), &mut GenCtx::new(7, names.clone()));
    assert_eq!(a.get_mass(), b.get_mass());
    assert_eq!(a.get_n_planets(), b.get_n_planets());
    assert_eq!(a.get_name(), b.get_name());
    assert_eq!(a.get_planets(), b.get_planets());
}

#[test]
fn update_orbits_moves_every_planet() {
    let mut system = ladder_system();
    // Angular speeds: 6283/61 = 103, 6283/1001 = 6, 6283/4000 = 1.
    system.update_orbits(2);
    let planets = system.get_planets();
    assert_eq!(planets[0].get_orbit_position(), 206);
    assert_eq!(planets[1].get_orbit_position(), 12);
    assert_eq!(planets[2].get_orbit_position(), 2);
    // Nothing else moved.
    assert_eq!(system.get_n_planets(), 3);
    assert_eq!(system.get_mass(), 16_000);
    assert_eq!(planets[0].get_orbit_radius(), 100);
    system.update_orbits(0);
    let after = system.get_planets();
    assert_eq!(after, planets);
}

#[test]
fn satellites_are_a_snapshot() {
    let system = ladder_system();
    let satellites = system.get_satellites();
    assert_eq!(satellites, system.get_planets());
    assert_eq!(satellites.len(), 3);
}

#[test]
fn body_kinds_are_exposed() {
    let system = ladder_system();
    assert_eq!(system.get_type(), CelestialBodyType::SolarSystem);
    assert_eq!(system.get_star().get_type(), CelestialBodyType::Star);
    assert_eq!(system.get_planets()[0].get_type(), CelestialBodyType::Planet);
}

#[test]
fn display_contracts() {
    let system = ladder_system();
    assert_eq!(system.get_name(), "Sun");
    assert_eq!(system.get_star().get_name(), "Sun");
    assert_eq!(system.get_menu_color(), MenuColor::Neutral);
    assert_eq!(system.get_star().get_menu_color(), MenuColor::Yellow);
    assert_eq!(system.get_planets()[0].get_menu_color(), MenuColor::Neutral);
    assert!(system.get_properties().is_empty());
}

#[test]
fn inner_limit_of_system() {
    let system = ladder_system();
    // Density of the star: 3 * 10000 * 10^12 / (4 * 3141 * 1000^3) = 2387;
    // the lift is 1000 * 2387 / 10^6 = 2.
    assert_eq!(system.get_inner_limit(), 1_003);
}

#[test]
fn star_accessors() {
    let star = Star::new("Vega".to_string(), 900, 800);
    assert_eq!(star.get_mass(), 900);
    assert_eq!(star.get_radius(), 800);
    assert_eq!(star.get_name(), "Vega");
    let copy = star.duplicate();
    assert_eq!(copy.get_name(), "Vega");
    assert_eq!(copy.get_mass(), 900);
}

#[test]
fn planet_accessors() {
    let planet = Planet::new(55, 60, 1_000, 61, 10);
    assert_eq!(planet.get_mass(), 55);
    assert_eq!(planet.get_radius(), 60);
    assert_eq!(planet.get_orbit_radius(), 1_000);
    assert_eq!(planet.get_orbit_period(), 61);
    assert_eq!(planet.get_orbit_position(), 10);
    assert_eq!(planet.get_angular_speed(), 103);
    assert_eq!(planet.get_name(), "Planet");
}
