//! Columnar serialization and star-type labels.

use galaxy_query::columnar::{star_type_label, to_columnar};
use galaxy_query::model::{Star, StarType, Vec3};

fn sample_star(id: u64, x: i64, y: i64, z: i64, star_type: StarType) -> Star {
    Star {
        id,
        position: Vec3 { x, y, z },
        mass: 1_000 + id as i64,
        luminosity: 2_000 + id as i64,
        temperature: 5_772_000 + id as i64,
        star_type,
    }
}

#[test]
fn star_type_labels_cover_every_class() {
    assert_eq!(star_type_label(StarType::O), "O");
    assert_eq!(star_type_label(StarType::B), "B");
    assert_eq!(star_type_label(StarType::A), "A");
    assert_eq!(star_type_label(StarType::F), "F");
    assert_eq!(star_type_label(StarType::G), "G");
    assert_eq!(star_type_label(StarType::K), "K");
    assert_eq!(star_type_label(StarType::M), "M");
    assert_eq!(star_type_label(StarType::WhiteDwarf), "WhiteDwarf");
    assert_eq!(star_type_label(StarType::NeutronStar), "NeutronStar");
    assert_eq!(star_type_label(StarType::BlackHole), "BlackHole");
}

#[test]
fn columnar_arrays_are_parallel_and_aligned() {
    let stars = vec![
        sample_star(7, 1_000, 2_000, 3_000, StarType::G),
        sample_star(8, -4_000, 5_000, -6_000, StarType::M),
        sample_star(9, 0, 0, 0, StarType::BlackHole),
    ];
    let c = to_columnar(&stars);
    assert_eq!(c.count, 3);
    assert_eq!(c.positions.len(), 3);
    assert_eq!(c.ids.len(), 3);
    assert_eq!(c.luminosities.len(), 3);
    assert_eq!(c.temperatures.len(), 3);
    assert_eq!(c.masses.len(), 3);
    assert_eq!(c.star_types.len(), 3);
    for i in 0..3 {
        assert_eq!(c.positions[i], stars[i].position);
        assert_eq!(c.ids[i], stars[i].id);
        assert_eq!(c.luminosities[i], stars[i].luminosity);
        assert_eq!(c.temperatures[i], stars[i].temperature);
        assert_eq!(c.masses[i], stars[i].mass);
    }
    assert_eq!(c.star_types[0], "G");
    assert_eq!(c.star_types[1], "M");
    assert_eq!(c.star_types[2], "BlackHole");
}

#[test]
fn columnar_of_empty_list_is_empty() {
    let stars: Vec<Star> = Vec::new();
    let c = to_columnar(&stars);
    assert_eq!(c.count, 0);
    assert_eq!(c.positions.len(), 0);
    assert_eq!(c.ids.len(), 0);
    assert_eq!(c.luminosities.len(), 0);
    assert_eq!(c.temperatures.len(), 0);
    assert_eq!(c.masses.len(), 0);
    assert_eq!(c.star_types.len(), 0);
}
