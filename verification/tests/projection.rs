//! Hierarchical projection of star systems.

use galaxy_query::model::{
    Asteroid, AsteroidBelt, AsteroidType, Comet, CometType, Moon, MoonType, OortCloud, Planet,
    PlanetType, Star, StarSystem, StarType, StellarComponent, StellarConfiguration, Vec3,
};
use galaxy_query::projector::{
    asteroid_type_label, comet_type_label, configuration_to_record, moon_type_label,
    planet_type_label, project_system,
};
use galaxy_query::session::GalaxySession;

fn origin() -> Vec3 {
    Vec3 { x: 0, y: 0, z: 0 }
}

fn member_star(id: u64, star_type: StarType) -> Star {
    Star {
        id,
        position: Vec3 { x: 100, y: 200, z: 300 },
        mass: 1_000,
        luminosity: 1_000,
        temperature: 5_772_000,
        star_type,
    }
}

fn rocky_moon(mass: i64, orbit_km: i64) -> Moon {
    Moon {
        moon_type: MoonType::Rocky,
        mass,
        position: Vec3 { x: orbit_km, y: 0, z: 0 },
    }
}

fn small_planet(planet_type: PlanetType, orbit_au: i64, moons: Vec<Moon>) -> Planet {
    Planet {
        planet_type,
        mass: 1_000,
        position: Vec3 { x: orbit_au, y: 0, z: 0 },
        moons,
    }
}

fn lone_component(inner: Vec<Planet>, outer: Vec<Planet>) -> StellarComponent {
    StellarComponent {
        star_indices: vec![0],
        barycenter: origin(),
        combined_mass: 1_000,
        internal_separation: 0,
        is_interacting: false,
        planet_inner_limit: 100,
        planet_outer_limit: 40_000_000,
        frost_line: 2_700_000,
        habitable_zone_inner: 950_000,
        habitable_zone_outer: 1_400_000,
        inner_planets: inner,
        outer_planets: outer,
    }
}

fn single_system(oort_cloud: Option<OortCloud>) -> StarSystem {
    let inner = vec![small_planet(
        PlanetType::Terrestrial,
        1_000_000,
        vec![rocky_moon(12, 384_400_000), rocky_moon(7, 100_000_000)],
    )];
    let outer = vec![small_planet(PlanetType::GasGiant, 5_200_000, vec![])];
    let belt = AsteroidBelt {
        name: String::from("main belt"),
        inner_radius: 2_100_000,
        outer_radius: 3_300_000,
        total_mass: 600,
        asteroid_count: 2_000,
        largest_bodies: vec![Asteroid {
            asteroid_type: AsteroidType::Silicate,
            mass: 200,
            diameter: 525_000,
            orbital_radius: 2_360_000,
            position: Vec3 { x: 2_360_000, y: 0, z: 0 },
        }],
    };
    StarSystem {
        position: Vec3 { x: 100, y: 200, z: 300 },
        stars: vec![member_star(77, StarType::G)],
        configuration: StellarConfiguration::Single,
        stellar_components: vec![lone_component(inner.clone(), outer.clone())],
        inner_planets: inner,
        outer_planets: outer,
        asteroid_belts: vec![belt],
        oort_cloud,
        frost_line: 2_700_000,
        habitable_zone_inner: 950_000,
        habitable_zone_outer: 1_400_000,
    }
}

fn sample_oort() -> OortCloud {
    OortCloud {
        inner_radius: 2_000_000_000,
        outer_radius: 100_000_000_000,
        estimated_population: 1_000_000,
        total_mass: 3_000,
        notable_comets: vec![Comet {
            comet_type: CometType::LongPeriod,
            mass: 5,
            nucleus_diameter: 11_000,
            orbital_radius: 50_000_000,
            eccentricity: 990,
            position: Vec3 { x: 50_000_000, y: 0, z: 0 },
        }],
    }
}

#[test]
fn planet_labels_cover_every_class() {
    assert_eq!(planet_type_label(PlanetType::Dwarf), "Dwarf");
    assert_eq!(planet_type_label(PlanetType::Terrestrial), "Terrestrial");
    assert_eq!(planet_type_label(PlanetType::SuperEarth), "SuperEarth");
    assert_eq!(planet_type_label(PlanetType::Desert), "Desert");
    assert_eq!(planet_type_label(PlanetType::Ocean), "Ocean");
    assert_eq!(planet_type_label(PlanetType::Lava), "Lava");
    assert_eq!(planet_type_label(PlanetType::MiniNeptune), "MiniNeptune");
    assert_eq!(planet_type_label(PlanetType::SubNeptune), "SubNeptune");
    assert_eq!(planet_type_label(PlanetType::IceGiant), "IceGiant");
    assert_eq!(planet_type_label(PlanetType::GasGiant), "GasGiant");
    assert_eq!(planet_type_label(PlanetType::HotJupiter), "HotJupiter");
    assert_eq!(planet_type_label(PlanetType::Chthonian), "Chthonian");
    assert_eq!(planet_type_label(PlanetType::Carbon), "Carbon");
    assert_eq!(planet_type_label(PlanetType::Coreless), "Coreless");
}

#[test]
fn moon_asteroid_comet_labels_cover_every_class() {
    assert_eq!(moon_type_label(MoonType::Rocky), "Rocky");
    assert_eq!(moon_type_label(MoonType::Icy), "Icy");
    assert_eq!(moon_type_label(MoonType::IceRock), "IceRock");
    assert_eq!(moon_type_label(MoonType::Ocean), "Ocean");
    assert_eq!(moon_type_label(MoonType::Volcanic), "Volcanic");
    assert_eq!(moon_type_label(MoonType::Captured), "Captured");
    assert_eq!(moon_type_label(MoonType::Atmospheric), "Atmospheric");
    assert_eq!(asteroid_type_label(AsteroidType::Carbonaceous), "Carbonaceous");
    assert_eq!(asteroid_type_label(AsteroidType::Silicate), "Silicate");
    assert_eq!(asteroid_type_label(AsteroidType::Metallic), "Metallic");
    assert_eq!(comet_type_label(CometType::ShortPeriod), "ShortPeriod");
    assert_eq!(comet_type_label(CometType::LongPeriod), "LongPeriod");
    assert_eq!(comet_type_label(CometType::Hyperbolic), "Hyperbolic");
}

#[test]
fn configuration_records_carry_their_shape_fields() {
    let single = configuration_to_record(&StellarConfiguration::Single);
    assert_eq!(single.kind, "Single");
    assert!(single.separation_au.is_none());
    assert!(single.is_contact.is_none());
    let close = configuration_to_record(&StellarConfiguration::CloseBinary {
        separation_au: 50,
        is_contact: true,
    });
    assert_eq!(close.kind, "CloseBinary");
    assert_eq!(close.separation_au, Some(50));
    assert_eq!(close.is_contact, Some(true));
    let wide = configuration_to_record(&StellarConfiguration::WideBinary { separation_au: 90_000 });
    assert_eq!(wide.kind, "WideBinary");
    assert_eq!(wide.separation_au, Some(90_000));
    let triple = configuration_to_record(&StellarConfiguration::HierarchicalTriple {
        inner_separation_au: 400,
        outer_separation_au: 120_000,
    });
    assert_eq!(triple.kind, "HierarchicalTriple");
    assert_eq!(triple.inner_separation_au, Some(400));
    assert_eq!(triple.outer_separation_au, Some(120_000));
    assert!(triple.separation_au.is_none());
    let unstable = configuration_to_record(&StellarConfiguration::UnstableTriple);
    assert_eq!(unstable.kind, "UnstableTriple");
    assert!(unstable.inner_separation_au.is_none());
}

#[test]
fn projected_system_mirrors_the_hierarchy() {
    let system = single_system(None);
    let record = project_system(77, &system);
    assert_eq!(record.star_id, 77);
    assert_eq!(record.position, system.position);
    assert_eq!(record.stars.len(), 1);
    assert_eq!(record.stars[0].id, 77);
    assert_eq!(record.stars[0].star_type, "G");
    assert_eq!(record.configuration.kind, "Single");
    assert_eq!(record.stellar_components.len(), 1);
    let comp = &record.stellar_components[0];
    assert_eq!(comp.star_indices, vec![0]);
    assert_eq!(comp.frost_line, 2_700_000);
    assert_eq!(comp.inner_planets.len(), 1);
    assert_eq!(comp.outer_planets.len(), 1);
    assert_eq!(record.inner_planets.len(), 1);
    let planet = &record.inner_planets[0];
    assert_eq!(planet.planet_type, "Terrestrial");
    assert_eq!(planet.orbital_radius, 1_000_000);
    assert_eq!(planet.moon_count, 2);
    assert_eq!(planet.moons.len(), 2);
    assert_eq!(planet.moons[0].moon_type, "Rocky");
    assert_eq!(planet.moons[0].orbital_radius, 384_400_000);
    assert_eq!(record.outer_planets[0].planet_type, "GasGiant");
    assert_eq!(record.asteroid_belts.len(), 1);
    let belt = &record.asteroid_belts[0];
    assert_eq!(belt.name, "main belt");
    assert_eq!(belt.asteroid_count, 2_000);
    assert_eq!(belt.largest_bodies.len(), 1);
    assert_eq!(belt.largest_bodies[0].asteroid_type, "Silicate");
    assert_eq!(record.frost_line, 2_700_000);
    assert_eq!(record.habitable_zone_inner, 950_000);
    assert_eq!(record.habitable_zone_outer, 1_400_000);
}

#[test]
fn absent_oort_cloud_is_omitted_entirely() {
    let system = single_system(None);
    let record = project_system(77, &system);
    assert!(record.oort_cloud.is_none());
}

#[test]
fn present_oort_cloud_is_projected_in_full() {
    let system = single_system(Some(sample_oort()));
    let record = project_system(77, &system);
    let oort = record.oort_cloud.expect("cloud present in the system");
    assert_eq!(oort.inner_radius, 2_000_000_000);
    assert_eq!(oort.outer_radius, 100_000_000_000);
    assert_eq!(oort.estimated_population, 1_000_000);
    assert_eq!(oort.total_mass, 3_000);
    assert_eq!(oort.notable_comets.len(), 1);
    assert_eq!(oort.notable_comets[0].comet_type, "LongPeriod");
    assert_eq!(oort.notable_comets[0].eccentricity, 990);
}

#[test]
fn projection_is_deterministic() {
    let system = single_system(Some(sample_oort()));
    let first = project_system(77, &system);
    let second = project_system(77, &system);
    assert_eq!(first, second);
}

#[test]
fn triple_system_components_cover_all_stars() {
    let stars = vec![
        member_star(1, StarType::G),
        member_star(2, StarType::K),
        member_star(3, StarType::M),
    ];
    let pair = StellarComponent {
        star_indices: vec![0, 1],
        ..lone_component(vec![], vec![])
    };
    let third = StellarComponent {
        star_indices: vec![2],
        ..lone_component(vec![], vec![])
    };
    let system = StarSystem {
        position: origin(),
        stars,
        configuration: StellarConfiguration::UnstableTriple,
        stellar_components: vec![pair, third],
        inner_planets: vec![],
        outer_planets: vec![],
        asteroid_belts: vec![],
        oort_cloud: None,
        frost_line: 2_700_000,
        habitable_zone_inner: 950_000,
        habitable_zone_outer: 1_400_000,
    };
    let record = project_system(1, &system);
    assert!(record.stellar_components.len() >= 2);
    let mut seen: Vec<usize> = record
        .stellar_components
        .iter()
        .flat_map(|c| c.star_indices.iter().copied())
        .collect();
    seen.sort();
    assert_eq!(seen, vec![0, 1, 2]);
}

#[test]
fn system_query_requires_a_bound_session() {
    let system = single_system(None);
    let unbound = GalaxySession::init();
    assert!(unbound.get_star_system(77, &system).is_none());
    let mut bound = GalaxySession::init();
    bound.set_galaxy_seed(42);
    let record = bound.get_star_system(77, &system).expect("bound session answers");
    assert_eq!(record.star_id, 77);
    assert!(record.oort_cloud.is_none());
}
