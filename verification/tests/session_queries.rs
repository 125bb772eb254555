//! Session state, structure queries and nearby queries.

use galaxy_query::model::{Star, StarType, Vec3};
use galaxy_query::session::{
    Binding, GalaxyConfig, GalaxySession, DEFAULT_NEARBY_MAX_RADIUS,
    DEFAULT_STRUCTURE_BLOCK_SIZE, DEFAULT_STRUCTURE_SAMPLES_PER_BLOCK,
};

fn star_at(id: u64, x: i64, y: i64, z: i64) -> Star {
    Star {
        id,
        position: Vec3 { x, y, z },
        mass: 1_000,
        luminosity: 1_500,
        temperature: 5_000_000,
        star_type: StarType::K,
    }
}

fn bound_session(seed: i64) -> GalaxySession {
    let mut s = GalaxySession::init();
    s.set_galaxy_seed(seed);
    s
}

#[test]
fn fresh_session_is_unbound_with_defaults() {
    let s = GalaxySession::init();
    assert_eq!(s.seed, 0);
    assert!(!s.is_bound());
    assert_eq!(s.get_nearby_max_radius(), DEFAULT_NEARBY_MAX_RADIUS);
    assert_eq!(s.get_galaxy_radius(123_456), 0);
}

#[test]
fn ready_binds_with_current_seed_and_defaults() {
    let mut s = GalaxySession::init();
    s.ready();
    assert!(s.is_bound());
    assert_eq!(s.seed, 0);
    assert_eq!(s.get_nearby_max_radius(), DEFAULT_NEARBY_MAX_RADIUS);
    assert_eq!(s.get_galaxy_radius(123_456), 123_456);
}

#[test]
fn setting_seed_rebinds_and_resets_config() {
    let mut s = GalaxySession::init();
    s.set_galaxy_seed(42);
    assert!(s.is_bound());
    assert_eq!(s.seed, 42);
    s.set_nearby_max_radius(5_000);
    assert_eq!(s.get_nearby_max_radius(), 5_000);
    s.set_galaxy_seed(43);
    assert_eq!(s.get_nearby_max_radius(), DEFAULT_NEARBY_MAX_RADIUS);
}

#[test]
fn load_config_applies_whole_configuration() {
    let mut s = bound_session(1);
    let cfg = GalaxyConfig {
        nearby_max_radius: 8_000,
        structure_block_size: 50_000,
        structure_samples_per_block: 4,
    };
    s.load_config(cfg);
    assert_eq!(s.get_nearby_max_radius(), 8_000);
    assert_eq!(
        s.binding,
        Binding::Bound { config: cfg },
    );
}

#[test]
fn setters_before_first_bind_leave_session_untouched() {
    let mut s = GalaxySession::init();
    s.set_nearby_max_radius(1_000);
    s.set_structure_block_size(2_000);
    s.set_structure_samples_per_block(3);
    assert!(!s.is_bound());
    assert_eq!(s.get_nearby_max_radius(), DEFAULT_NEARBY_MAX_RADIUS);
}

#[test]
fn config_setters_change_one_field_each() {
    let mut s = bound_session(5);
    s.set_structure_block_size(77_000);
    s.set_structure_samples_per_block(9);
    s.set_nearby_max_radius(12_000);
    assert_eq!(
        s.binding,
        Binding::Bound {
            config: GalaxyConfig {
                nearby_max_radius: 12_000,
                structure_block_size: 77_000,
                structure_samples_per_block: 9,
            }
        },
    );
    let _ = (DEFAULT_STRUCTURE_BLOCK_SIZE, DEFAULT_STRUCTURE_SAMPLES_PER_BLOCK);
}

#[test]
fn structure_query_caps_and_counts() {
    let s = bound_session(42);
    let stars: Vec<Star> = (10..15).map(|i| star_at(i, i as i64 * 1_000, 0, 0)).collect();
    let data = s.get_structure(3, &stars, 900).expect("bound session answers");
    assert_eq!(data.columnar.count, 3);
    assert_eq!(data.columnar.ids, vec![10, 11, 12]);
    assert_eq!(data.estimated_total_stars, 900);
    let all = s.get_structure(10, &stars, 900).expect("bound session answers");
    assert_eq!(all.columnar.count, 5);
    assert_eq!(all.columnar.ids, vec![10, 11, 12, 13, 14]);
}

#[test]
fn structure_query_unbound_returns_nothing() {
    let s = GalaxySession::init();
    let stars = vec![star_at(1, 0, 0, 0)];
    assert!(s.get_structure(10, &stars, 5).is_none());
}

#[test]
fn structure_query_with_zero_cap_still_estimates() {
    let s = bound_session(42);
    let stars = vec![star_at(1, 0, 0, 0), star_at(2, 1_000, 0, 0)];
    let data = s.get_structure(0, &stars, 7).expect("bound session answers");
    assert_eq!(data.columnar.count, 0);
    assert_eq!(data.columnar.ids.len(), 0);
    assert_eq!(data.columnar.positions.len(), 0);
    assert!(data.estimated_total_stars >= 0);
    assert_eq!(data.estimated_total_stars, 7);
}

#[test]
fn structure_estimate_is_never_negative() {
    let s = bound_session(42);
    let stars: Vec<Star> = Vec::new();
    let data = s.get_structure(4, &stars, -25).expect("bound session answers");
    assert_eq!(data.estimated_total_stars, 0);
}

#[test]
fn nearby_query_filters_sorts_and_reports_radius() {
    let s = bound_session(42);
    let center = Vec3 { x: 0, y: 0, z: 0 };
    let stars = vec![
        star_at(3, 1_000, 0, 0),
        star_at(1, 0, 2_000, 0),
        star_at(2, 0, 0, 1_000),
        star_at(4, 20_000, 0, 0),
    ];
    let data = s
        .get_nearby_stars_limited(center, 16_000, 100, &stars)
        .expect("bound session answers");
    assert_eq!(data.effective_radius, 16_000);
    assert_eq!(data.columnar.ids, vec![2, 3, 1]);
    assert_eq!(data.columnar.count, 3);
    assert_eq!(data.columnar.positions[0], Vec3 { x: 0, y: 0, z: 1_000 });
    assert_eq!(data.columnar.positions[1], Vec3 { x: 1_000, y: 0, z: 0 });
    assert_eq!(data.columnar.positions[2], Vec3 { x: 0, y: 2_000, z: 0 });
}

#[test]
fn nearby_query_breaks_distance_ties_by_id() {
    let s = bound_session(42);
    let center = Vec3 { x: 0, y: 0, z: 0 };
    let stars = vec![
        star_at(9, 1_000, 0, 0),
        star_at(4, 0, -1_000, 0),
        star_at(6, 0, 0, 1_000),
    ];
    let data = s
        .get_nearby_stars_limited(center, 16_000, 100, &stars)
        .expect("bound session answers");
    assert_eq!(data.columnar.ids, vec![4, 6, 9]);
}

#[test]
fn nearby_query_cap_keeps_closest_stars() {
    let s = bound_session(42);
    let center = Vec3 { x: 0, y: 0, z: 0 };
    let stars = vec![
        star_at(1, 3_000, 0, 0),
        star_at(2, 1_000, 0, 0),
        star_at(3, 2_000, 0, 0),
    ];
    let data = s
        .get_nearby_stars_limited(center, 16_000, 2, &stars)
        .expect("bound session answers");
    assert_eq!(data.columnar.count, 2);
    assert_eq!(data.columnar.ids, vec![2, 3]);
}

#[test]
fn nearby_query_unbound_returns_nothing() {
    let s = GalaxySession::init();
    let center = Vec3 { x: 0, y: 0, z: 0 };
    let stars = vec![star_at(1, 0, 0, 0)];
    assert!(s.get_nearby_stars(center, 16_000, &stars).is_none());
}

#[test]
fn oversized_radius_behaves_like_the_maximum() {
    let s = bound_session(42);
    assert_eq!(s.get_nearby_max_radius(), 16_000);
    let center = Vec3 { x: 0, y: 0, z: 0 };
    let stars = vec![
        star_at(3, 1_000, 0, 0),
        star_at(1, 0, 2_000, 0),
        star_at(4, 20_000, 0, 0),
        star_at(2, 0, 0, 15_999),
    ];
    let wide = s
        .get_nearby_stars_limited(center, 50_000, 10_000, &stars)
        .expect("bound session answers");
    let exact = s
        .get_nearby_stars_limited(center, 16_000, 10_000, &stars)
        .expect("bound session answers");
    assert_eq!(wide.effective_radius, 16_000);
    assert_eq!(exact.effective_radius, 16_000);
    assert_eq!(wide.columnar, exact.columnar);
    assert_eq!(wide.columnar.ids, vec![3, 1, 2]);
}

#[test]
fn repeated_identical_queries_are_deterministic() {
    let s = bound_session(42);
    let center = Vec3 { x: 100, y: -200, z: 300 };
    let stars = vec![
        star_at(5, 1_000, 500, 0),
        star_at(2, -3_000, 0, 900),
        star_at(8, 0, 4_000, -100),
    ];
    let first = s
        .get_nearby_stars_limited(center, 10_000, 50, &stars)
        .expect("bound session answers");
    let second = s
        .get_nearby_stars_limited(center, 10_000, 50, &stars)
        .expect("bound session answers");
    assert_eq!(first.columnar, second.columnar);
    assert_eq!(first.effective_radius, second.effective_radius);
    let s1 = s.get_structure(2, &stars, 11).expect("bound session answers");
    let s2 = s.get_structure(2, &stars, 11).expect("bound session answers");
    assert_eq!(s1.columnar, s2.columnar);
    assert_eq!(s1.estimated_total_stars, s2.estimated_total_stars);
}

#[test]
fn default_cap_query_matches_explicit_cap() {
    let s = bound_session(42);
    let center = Vec3 { x: 0, y: 0, z: 0 };
    let stars = vec![star_at(1, 1_000, 0, 0), star_at(2, 2_000, 0, 0)];
    let by_default = s
        .get_nearby_stars(center, 4_000, &stars)
        .expect("bound session answers");
    let by_limit = s
        .get_nearby_stars_limited(center, 4_000, 10_000, &stars)
        .expect("bound session answers");
    assert_eq!(by_default.columnar, by_limit.columnar);
    assert_eq!(by_default.effective_radius, 4_000);
}

#[test]
fn negative_radius_is_clamped_to_zero() {
    let s = bound_session(42);
    assert_eq!(s.effective_nearby_radius(-5_000), 0);
    assert_eq!(s.effective_nearby_radius(3_000), 3_000);
    assert_eq!(s.effective_nearby_radius(99_999), 16_000);
    let center = Vec3 { x: 0, y: 0, z: 0 };
    let stars = vec![star_at(1, 0, 0, 0), star_at(2, 1_000, 0, 0)];
    let data = s
        .get_nearby_stars_limited(center, -5_000, 10, &stars)
        .expect("bound session answers");
    assert_eq!(data.effective_radius, 0);
    assert_eq!(data.columnar.ids, vec![1]);
}
