//! Hierarchical projection of one star system.
//!
//! A queried system is expanded into a single nested record mirroring the
//! data model exactly — no flattening, every nested list materialized.
//! Every enumerated variant maps to an explicit label through a total
//! match with no fallthrough default, so that an unhandled variant fails to
//! compile rather than silently coercing.  The Oort cloud stays optional:
//! a system without one projects to a record without one, not to an empty
//! placeholder.

use vstd::prelude::*;
use crate::model::{
    Asteroid, AsteroidBelt, AsteroidType, Comet, CometType, Moon, MoonType, OortCloud, Planet,
    PlanetType, Star, StarSystem, StellarComponent, StellarConfiguration, Vec3,
};
use crate::columnar::{star_type_label, star_type_label_spec};

verus! {

/// The canonical label of each planet classification.
pub open spec fn planet_type_label_spec(t: PlanetType) -> Seq<char> {
    match t {
        PlanetType::Dwarf => "Dwarf"@,
        PlanetType::Terrestrial => "Terrestrial"@,
        PlanetType::SuperEarth => "SuperEarth"@,
        PlanetType::Desert => "Desert"@,
        PlanetType::Ocean => "Ocean"@,
        PlanetType::Lava => "Lava"@,
        PlanetType::MiniNeptune => "MiniNeptune"@,
        PlanetType::SubNeptune => "SubNeptune"@,
        PlanetType::IceGiant => "IceGiant"@,
        PlanetType::GasGiant => "GasGiant"@,
        PlanetType::HotJupiter => "HotJupiter"@,
        PlanetType::Chthonian => "Chthonian"@,
        PlanetType::Carbon => "Carbon"@,
        PlanetType::Coreless => "Coreless"@,
    }
}

/// Canonical label of a planet classification; covers every variant.
pub fn planet_type_label(t: PlanetType) -> (r: String)
    ensures
        r@ == planet_type_label_spec(t),
{
    match t {
        PlanetType::Dwarf => String::from_str("Dwarf"),
        PlanetType::Terrestrial => String::from_str("Terrestrial"),
        PlanetType::SuperEarth => String::from_str("SuperEarth"),
        PlanetType::Desert => String::from_str("Desert"),
        PlanetType::Ocean => String::from_str("Ocean"),
        PlanetType::Lava => String::from_str("Lava"),
        PlanetType::MiniNeptune => String::from_str("MiniNeptune"),
        PlanetType::SubNeptune => String::from_str("SubNeptune"),
        PlanetType::IceGiant => String::from_str("IceGiant"),
        PlanetType::GasGiant => String::from_str("GasGiant"),
        PlanetType::HotJupiter => String::from_str("HotJupiter"),
        PlanetType::Chthonian => String::from_str("Chthonian"),
        PlanetType::Carbon => String::from_str("Carbon"),
        PlanetType::Coreless => String::from_str("Coreless"),
    }
}

/// The canonical label of each moon classification.
pub open spec fn moon_type_label_spec(t: MoonType) -> Seq<char> {
    match t {
        MoonType::Rocky => "Rocky"@,
        MoonType::Icy => "Icy"@,
        MoonType::IceRock => "IceRock"@,
        MoonType::Ocean => "Ocean"@,
        MoonType::Volcanic => "Volcanic"@,
        MoonType::Captured => "Captured"@,
        MoonType::Atmospheric => "Atmospheric"@,
    }
}

/// Canonical label of a moon classification; covers every variant.
pub fn moon_type_label(t: MoonType) -> (r: String)
    ensures
        r@ == moon_type_label_spec(t),
{
    match t {
        MoonType::Rocky => String::from_str("Rocky"),
        MoonType::Icy => String::from_str("Icy"),
        MoonType::IceRock => String::from_str("IceRock"),
        MoonType::Ocean => String::from_str("Ocean"),
        MoonType::Volcanic => String::from_str("Volcanic"),
        MoonType::Captured => String::from_str("Captured"),
        MoonType::Atmospheric => String::from_str("Atmospheric"),
    }
}

/// The canonical label of each asteroid classification.
pub open spec fn asteroid_type_label_spec(t: AsteroidType) -> Seq<char> {
    match t {
        AsteroidType::Carbonaceous => "Carbonaceous"@,
        AsteroidType::Silicate => "Silicate"@,
        AsteroidType::Metallic => "Metallic"@,
    }
}

/// Canonical label of an asteroid classification; covers every variant.
pub fn asteroid_type_label(t: AsteroidType) -> (r: String)
    ensures
        r@ == asteroid_type_label_spec(t),
{
    match t {
        AsteroidType::Carbonaceous => String::from_str("Carbonaceous"),
        AsteroidType::Silicate => String::from_str("Silicate"),
        AsteroidType::Metallic => String::from_str("Metallic"),
    }
}

/// The canonical label of each comet classification.
pub open spec fn comet_type_label_spec(t: CometType) -> Seq<char> {
    match t {
        CometType::ShortPeriod => "ShortPeriod"@,
        CometType::LongPeriod => "LongPeriod"@,
        CometType::Hyperbolic => "Hyperbolic"@,
    }
}

/// Canonical label of a comet classification; covers every variant.
pub fn comet_type_label(t: CometType) -> (r: String)
    ensures
        r@ == comet_type_label_spec(t),
{
    match t {
        CometType::ShortPeriod => String::from_str("ShortPeriod"),
        CometType::LongPeriod => String::from_str("LongPeriod"),
        CometType::Hyperbolic => String::from_str("Hyperbolic"),
    }
}

/// Projected moon: label, scalars, and position.
#[derive(Debug, PartialEq)]
pub struct MoonRecord {
    /// Canonical moon-type label.
    pub moon_type: String,
    /// Mass in thousandths of a lunar mass.
    pub mass: i64,
    /// Orbital radius around the planet, thousandths of a kilometer.
    pub orbital_radius: i64,
    /// Position relative to the planet.
    pub position: Vec3,
}

/// The record describes exactly this moon.
pub open spec fn moon_matches(m: Moon, r: MoonRecord) -> bool {
    &&& r.moon_type@ == moon_type_label_spec(m.moon_type)
    &&& r.mass == m.mass
    &&& r.orbital_radius == m.position.x
    &&& r.position == m.position
}

/// Projected planet with its moons materialized.
#[derive(Debug, PartialEq)]
pub struct PlanetRecord {
    /// Canonical planet-type label.
    pub planet_type: String,
    /// Mass in thousandths of an Earth mass.
    pub mass: i64,
    /// Orbital radius around the component barycenter, thousandths of an AU.
    pub orbital_radius: i64,
    /// Position relative to the component barycenter.
    pub position: Vec3,
    /// Moon records, in the planet's moon order.
    pub moons: Vec<MoonRecord>,
    /// Number of moons; equals the length of `moons`.
    pub moon_count: usize,
}

/// The record describes exactly this planet, moons included.
pub open spec fn planet_matches(p: Planet, r: PlanetRecord) -> bool {
    &&& r.planet_type@ == planet_type_label_spec(p.planet_type)
    &&& r.mass == p.mass
    &&& r.orbital_radius == p.position.x
    &&& r.position == p.position
    &&& r.moons@.len() == p.moons@.len()
    &&& forall|i: int| 0 <= i < p.moons@.len() ==> moon_matches(p.moons@[i], #[trigger] r.moons@[i])
    &&& r.moon_count == p.moons@.len()
}

/// Projected asteroid.
#[derive(Debug, PartialEq)]
pub struct AsteroidRecord {
    /// Canonical asteroid-type label.
    pub asteroid_type: String,
    /// Mass in thousandths of the engine's asteroid mass unit.
    pub mass: i64,
    /// Diameter in thousandths of a kilometer.
    pub diameter: i64,
    /// Orbital radius, thousandths of an AU.
    pub orbital_radius: i64,
    /// Position, thousandths of an AU.
    pub position: Vec3,
}

/// The record describes exactly this asteroid.
pub open spec fn asteroid_matches(a: Asteroid, r: AsteroidRecord) -> bool {
    &&& r.asteroid_type@ == asteroid_type_label_spec(a.asteroid_type)
    &&& r.mass == a.mass
    &&& r.diameter == a.diameter
    &&& r.orbital_radius == a.orbital_radius
    &&& r.position == a.position
}

/// Projected asteroid belt with its notable members.
#[derive(Debug, PartialEq)]
pub struct AsteroidBeltRecord {
    /// Belt name.
    pub name: String,
    /// Inner radius, thousandths of an AU.
    pub inner_radius: i64,
    /// Outer radius, thousandths of an AU.
    pub outer_radius: i64,
    /// Total belt mass, thousandths of the engine's asteroid mass unit.
    pub total_mass: i64,
    /// Number of asteroids in the belt.
    pub asteroid_count: u64,
    /// Records of the notable members.
    pub largest_bodies: Vec<AsteroidRecord>,
}

/// The record describes exactly this belt, notable members included.
pub open spec fn asteroid_belt_matches(b: AsteroidBelt, r: AsteroidBeltRecord) -> bool {
    &&& r.name@ == b.name@
    &&& r.inner_radius == b.inner_radius
    &&& r.outer_radius == b.outer_radius
    &&& r.total_mass == b.total_mass
    &&& r.asteroid_count == b.asteroid_count
    &&& r.largest_bodies@.len() == b.largest_bodies@.len()
    &&& forall|i: int| 0 <= i < b.largest_bodies@.len()
        ==> asteroid_matches(b.largest_bodies@[i], #[trigger] r.largest_bodies@[i])
}

/// Projected comet.
#[derive(Debug, PartialEq)]
pub struct CometRecord {
    /// Canonical comet-type label.
    pub comet_type: String,
    /// Mass in thousandths of the engine's comet mass unit.
    pub mass: i64,
    /// Nucleus diameter in thousandths of a kilometer.
    pub nucleus_diameter: i64,
    /// Semi-major axis in thousandths of an AU.
    pub orbital_radius: i64,
    /// Orbital eccentricity in thousandths.
    pub eccentricity: i64,
    /// Position, thousandths of an AU.
    pub position: Vec3,
}

/// The record describes exactly this comet.
pub open spec fn comet_matches(c: Comet, r: CometRecord) -> bool {
    &&& r.comet_type@ == comet_type_label_spec(c.comet_type)
    &&& r.mass == c.mass
    &&& r.nucleus_diameter == c.nucleus_diameter
    &&& r.orbital_radius == c.orbital_radius
    &&& r.eccentricity == c.eccentricity
    &&& r.position == c.position
}

/// Projected Oort cloud with its notable comets.
#[derive(Debug, PartialEq)]
pub struct OortCloudRecord {
    /// Inner radius, thousandths of an AU.
    pub inner_radius: i64,
    /// Outer radius, thousandths of an AU.
    pub outer_radius: i64,
    /// Estimated number of objects.
    pub estimated_population: u64,
    /// Total mass, thousandths of the engine's comet mass unit.
    pub total_mass: i64,
    /// Records of the notable comets.
    pub notable_comets: Vec<CometRecord>,
}

/// The record describes exactly this Oort cloud, notable comets included.
pub open spec fn oort_cloud_matches(o: OortCloud, r: OortCloudRecord) -> bool {
    &&& r.inner_radius == o.inner_radius
    &&& r.outer_radius == o.outer_radius
    &&& r.estimated_population == o.estimated_population
    &&& r.total_mass == o.total_mass
    &&& r.notable_comets@.len() == o.notable_comets@.len()
    &&& forall|i: int| 0 <= i < o.notable_comets@.len()
        ==> comet_matches(o.notable_comets@[i], #[trigger] r.notable_comets@[i])
}

/// Converts a moon to its record.
pub fn moon_to_record(moon: &Moon) -> (r: MoonRecord)
    ensures
        moon_matches(*moon, r),
{
    MoonRecord {
        moon_type: moon_type_label(moon.moon_type),
        mass: moon.mass,
        orbital_radius: moon.position.x,
        position: moon.position,
    }
}

/// Converts a planet, moons included, to its record.
pub fn planet_to_record(planet: &Planet) -> (r: PlanetRecord)
    ensures
        planet_matches(*planet, r),
{
    let mut moons: Vec<MoonRecord> = Vec::new();
    let mut i: usize = 0;
    while i < planet.moons.len()
        invariant
            0 <= i <= planet.moons@.len(),
            moons@.len() == i,
            forall|k: int| 0 <= k < i ==> moon_matches(planet.moons@[k], #[trigger] moons@[k]),
        decreases planet.moons@.len() - i,
    {
        let m = moon_to_record(&planet.moons[i]);
        moons.push(m);
        i = i + 1;
    }
    PlanetRecord {
        planet_type: planet_type_label(planet.planet_type),
        mass: planet.mass,
        orbital_radius: planet.position.x,
        position: planet.position,
        moon_count: moons.len(),
        moons,
    }
}

/// Converts an asteroid to its record.
pub fn asteroid_to_record(asteroid: &Asteroid) -> (r: AsteroidRecord)
    ensures
        asteroid_matches(*asteroid, r),
{
    AsteroidRecord {
        asteroid_type: asteroid_type_label(asteroid.asteroid_type),
        mass: asteroid.mass,
        diameter: asteroid.diameter,
        orbital_radius: asteroid.orbital_radius,
        position: asteroid.position,
    }
}

/// Converts an asteroid belt, notable members included, to its record.
pub fn asteroid_belt_to_record(belt: &AsteroidBelt) -> (r: AsteroidBeltRecord)
    ensures
        asteroid_belt_matches(*belt, r),
{
    let mut largest_bodies: Vec<AsteroidRecord> = Vec::new();
    let mut i: usize = 0;
    while i < belt.largest_bodies.len()
        invariant
            0 <= i <= belt.largest_bodies@.len(),
            largest_bodies@.len() == i,
            forall|k: int| 0 <= k < i
                ==> asteroid_matches(belt.largest_bodies@[k], #[trigger] largest_bodies@[k]),
        decreases belt.largest_bodies@.len() - i,
    {
        let a = asteroid_to_record(&belt.largest_bodies[i]);
        largest_bodies.push(a);
        i = i + 1;
    }
    AsteroidBeltRecord {
        name: clone_name(&belt.name),
        inner_radius: belt.inner_radius,
        outer_radius: belt.outer_radius,
        total_mass: belt.total_mass,
        asteroid_count: belt.asteroid_count,
        largest_bodies,
    }
}

/// Copy of a name string with the same characters.
fn clone_name(name: &String) -> (r: String)
    ensures
        r@ == name@,
{
    String::from_str(name.as_str())
}

/// Converts a comet to its record.
pub fn comet_to_record(comet: &Comet) -> (r: CometRecord)
    ensures
        comet_matches(*comet, r),
{
    CometRecord {
        comet_type: comet_type_label(comet.comet_type),
        mass: comet.mass,
        nucleus_diameter: comet.nucleus_diameter,
        orbital_radius: comet.orbital_radius,
        eccentricity: comet.eccentricity,
        position: comet.position,
    }
}

/// Projected member star of a system.
#[derive(Debug, PartialEq)]
pub struct StarRecord {
    /// Stable identifier.
    pub id: u64,
    /// Canonical star-type label.
    pub star_type: String,
    /// Mass in thousandths of a solar mass.
    pub mass: i64,
    /// Luminosity in thousandths of a solar luminosity.
    pub luminosity: i64,
    /// Temperature in thousandths of a kelvin.
    pub temperature: i64,
    /// Position, thousandths of a light-year.
    pub position: Vec3,
}

/// The record describes exactly this star.
pub open spec fn star_matches(s: Star, r: StarRecord) -> bool {
    &&& r.id == s.id
    &&& r.star_type@ == star_type_label_spec(s.star_type)
    &&& r.mass == s.mass
    &&& r.luminosity == s.luminosity
    &&& r.temperature == s.temperature
    &&& r.position == s.position
}

/// Converts a member star to its record.
pub fn star_to_record(star: &Star) -> (r: StarRecord)
    ensures
        star_matches(*star, r),
{
    StarRecord {
        id: star.id,
        star_type: star_type_label(star.star_type),
        mass: star.mass,
        luminosity: star.luminosity,
        temperature: star.temperature,
        position: star.position,
    }
}

/// Projected stellar configuration: a shape label plus the fields of that
/// shape, absent for shapes that do not carry them.
#[derive(Debug, PartialEq)]
pub struct ConfigurationRecord {
    /// Shape label.
    pub kind: String,
    /// Pair separation, for the binary shapes.
    pub separation_au: Option<i64>,
    /// Whether the close pair is in contact, for a close binary.
    pub is_contact: Option<bool>,
    /// Close-pair separation, for a hierarchical triple.
    pub inner_separation_au: Option<i64>,
    /// Third-star separation, for a hierarchical triple.
    pub outer_separation_au: Option<i64>,
}

/// The record describes exactly this configuration: the right label, the
/// shape's own fields present, every other field absent.
pub open spec fn configuration_matches(c: StellarConfiguration, r: ConfigurationRecord) -> bool {
    match c {
        StellarConfiguration::Single => {
            &&& r.kind@ == "Single"@
            &&& r.separation_au is None
            &&& r.is_contact is None
            &&& r.inner_separation_au is None
            &&& r.outer_separation_au is None
        },
        StellarConfiguration::CloseBinary { separation_au, is_contact } => {
            &&& r.kind@ == "CloseBinary"@
            &&& r.separation_au == Some(separation_au)
            &&& r.is_contact == Some(is_contact)
            &&& r.inner_separation_au is None
            &&& r.outer_separation_au is None
        },
        StellarConfiguration::WideBinary { separation_au } => {
            &&& r.kind@ == "WideBinary"@
            &&& r.separation_au == Some(separation_au)
            &&& r.is_contact is None
            &&& r.inner_separation_au is None
            &&& r.outer_separation_au is None
        },
        StellarConfiguration::HierarchicalTriple { inner_separation_au, outer_separation_au } => {
            &&& r.kind@ == "HierarchicalTriple"@
            &&& r.separation_au is None
            &&& r.is_contact is None
            &&& r.inner_separation_au == Some(inner_separation_au)
            &&& r.outer_separation_au == Some(outer_separation_au)
        },
        StellarConfiguration::UnstableTriple => {
            &&& r.kind@ == "UnstableTriple"@
            &&& r.separation_au is None
            &&& r.is_contact is None
            &&& r.inner_separation_au is None
            &&& r.outer_separation_au is None
        },
    }
}

/// Converts a stellar configuration to its record; covers every shape.
pub fn configuration_to_record(c: &StellarConfiguration) -> (r: ConfigurationRecord)
    ensures
        configuration_matches(*c, r),
{
    match c {
        StellarConfiguration::Single => ConfigurationRecord {
            kind: String::from_str("Single"),
            separation_au: None,
            is_contact: None,
            inner_separation_au: None,
            outer_separation_au: None,
        },
        StellarConfiguration::CloseBinary { separation_au, is_contact } => ConfigurationRecord {
            kind: String::from_str("CloseBinary"),
            separation_au: Some(*separation_au),
            is_contact: Some(*is_contact),
            inner_separation_au: None,
            outer_separation_au: None,
        },
        StellarConfiguration::WideBinary { separation_au } => ConfigurationRecord {
            kind: String::from_str("WideBinary"),
            separation_au: Some(*separation_au),
            is_contact: None,
            inner_separation_au: None,
            outer_separation_au: None,
        },
        StellarConfiguration::HierarchicalTriple { inner_separation_au, outer_separation_au } => (
        ConfigurationRecord {
            kind: String::from_str("HierarchicalTriple"),
            separation_au: None,
            is_contact: None,
            inner_separation_au: Some(*inner_separation_au),
            outer_separation_au: Some(*outer_separation_au),
        }),
        StellarConfiguration::UnstableTriple => ConfigurationRecord {
            kind: String::from_str("UnstableTriple"),
            separation_au: None,
            is_contact: None,
            inner_separation_au: None,
            outer_separation_au: None,
        },
    }
}

/// Projected stellar component with its planets materialized.
#[derive(Debug, PartialEq)]
pub struct StellarComponentRecord {
    /// Indices into the system's star list.
    pub star_indices: Vec<usize>,
    /// Barycenter, thousandths of an AU.
    pub barycenter: Vec3,
    /// Combined mass, thousandths of a solar mass.
    pub combined_mass: i64,
    /// Separation between member stars, thousandths of an AU.
    pub internal_separation: i64,
    /// Whether the member stars interact.
    pub is_interacting: bool,
    /// Innermost stable planet orbit, thousandths of an AU.
    pub planet_inner_limit: i64,
    /// Outermost stable planet orbit, thousandths of an AU.
    pub planet_outer_limit: i64,
    /// Frost line, thousandths of an AU.
    pub frost_line: i64,
    /// Inner edge of the habitable zone, thousandths of an AU.
    pub habitable_zone_inner: i64,
    /// Outer edge of the habitable zone, thousandths of an AU.
    pub habitable_zone_outer: i64,
    /// Records of the planets inside the frost line.
    pub inner_planets: Vec<PlanetRecord>,
    /// Records of the planets at or beyond the frost line.
    pub outer_planets: Vec<PlanetRecord>,
}

/// The record describes exactly this component, planets included.
pub open spec fn component_matches(c: StellarComponent, r: StellarComponentRecord) -> bool {
    &&& r.star_indices@ == c.star_indices@
    &&& r.barycenter == c.barycenter
    &&& r.combined_mass == c.combined_mass
    &&& r.internal_separation == c.internal_separation
    &&& r.is_interacting == c.is_interacting
    &&& r.planet_inner_limit == c.planet_inner_limit
    &&& r.planet_outer_limit == c.planet_outer_limit
    &&& r.frost_line == c.frost_line
    &&& r.habitable_zone_inner == c.habitable_zone_inner
    &&& r.habitable_zone_outer == c.habitable_zone_outer
    &&& r.inner_planets@.len() == c.inner_planets@.len()
    &&& forall|i: int| 0 <= i < c.inner_planets@.len()
        ==> planet_matches(c.inner_planets@[i], #[trigger] r.inner_planets@[i])
    &&& r.outer_planets@.len() == c.outer_planets@.len()
    &&& forall|i: int| 0 <= i < c.outer_planets@.len()
        ==> planet_matches(c.outer_planets@[i], #[trigger] r.outer_planets@[i])
}

/// Converts a list of planets to records, keeping order.
fn planets_to_records(planets: &Vec<Planet>) -> (r: Vec<PlanetRecord>)
    ensures
        r@.len() == planets@.len(),
        forall|i: int| 0 <= i < planets@.len() ==> planet_matches(planets@[i], #[trigger] r@[i]),
{
    let mut records: Vec<PlanetRecord> = Vec::new();
    let mut i: usize = 0;
    while i < planets.len()
        invariant
            0 <= i <= planets@.len(),
            records@.len() == i,
            forall|k: int| 0 <= k < i ==> planet_matches(planets@[k], #[trigger] records@[k]),
        decreases planets@.len() - i,
    {
        let p = planet_to_record(&planets[i]);
        records.push(p);
        i = i + 1;
    }
    records
}

/// Converts a stellar component, planets included, to its record.
pub fn component_to_record(comp: &StellarComponent) -> (r: StellarComponentRecord)
    ensures
        component_matches(*comp, r),
{
    let mut star_indices: Vec<usize> = Vec::new();
    let mut i: usize = 0;
    while i < comp.star_indices.len()
        invariant
            0 <= i <= comp.star_indices@.len(),
            star_indices@ == comp.star_indices@.subrange(0, i as int),
        decreases comp.star_indices@.len() - i,
    {
        let idx = comp.star_indices[i];
        star_indices.push(idx);
        proof {
            assert(star_indices@ =~= comp.star_indices@.subrange(0, i + 1 as int));
        }
        i = i + 1;
    }
    proof {
        assert(star_indices@ =~= comp.star_indices@);
    }
    StellarComponentRecord {
        star_indices,
        barycenter: comp.barycenter,
        combined_mass: comp.combined_mass,
        internal_separation: comp.internal_separation,
        is_interacting: comp.is_interacting,
        planet_inner_limit: comp.planet_inner_limit,
        planet_outer_limit: comp.planet_outer_limit,
        frost_line: comp.frost_line,
        habitable_zone_inner: comp.habitable_zone_inner,
        habitable_zone_outer: comp.habitable_zone_outer,
        inner_planets: planets_to_records(&comp.inner_planets),
        outer_planets: planets_to_records(&comp.outer_planets),
    }
}

/// The fully nested projection of one star system.
#[derive(Debug, PartialEq)]
pub struct StarSystemRecord {
    /// The queried star identifier, echoed back.
    pub star_id: u64,
    /// System position in galactic coordinates, thousandths of a light-year.
    pub position: Vec3,
    /// Records of the member stars, in system order.
    pub stars: Vec<StarRecord>,
    /// Record of the stellar configuration.
    pub configuration: ConfigurationRecord,
    /// Records of the stellar components, each with its planets.
    pub stellar_components: Vec<StellarComponentRecord>,
    /// Records of the system-level planets inside the frost line.
    pub inner_planets: Vec<PlanetRecord>,
    /// Records of the system-level planets at or beyond the frost line.
    pub outer_planets: Vec<PlanetRecord>,
    /// Records of the asteroid belts.
    pub asteroid_belts: Vec<AsteroidBeltRecord>,
    /// Record of the Oort cloud; absent exactly when the system has none.
    pub oort_cloud: Option<OortCloudRecord>,
    /// System frost line, thousandths of an AU.
    pub frost_line: i64,
    /// Inner edge of the system habitable zone, thousandths of an AU.
    pub habitable_zone_inner: i64,
    /// Outer edge of the system habitable zone, thousandths of an AU.
    pub habitable_zone_outer: i64,
}

/// The record mirrors this system exactly: every list index-aligned and
/// element-matched, the Oort cloud present in the record exactly when the
/// system has one.
pub open spec fn system_matches(star_id: u64, s: StarSystem, r: StarSystemRecord) -> bool {
    &&& r.star_id == star_id
    &&& r.position == s.position
    &&& r.stars@.len() == s.stars@.len()
    &&& forall|i: int| 0 <= i < s.stars@.len() ==> star_matches(s.stars@[i], #[trigger] r.stars@[i])
    &&& configuration_matches(s.configuration, r.configuration)
    &&& r.stellar_components@.len() == s.stellar_components@.len()
    &&& forall|i: int| 0 <= i < s.stellar_components@.len()
        ==> component_matches(s.stellar_components@[i], #[trigger] r.stellar_components@[i])
    &&& r.inner_planets@.len() == s.inner_planets@.len()
    &&& forall|i: int| 0 <= i < s.inner_planets@.len()
        ==> planet_matches(s.inner_planets@[i], #[trigger] r.inner_planets@[i])
    &&& r.outer_planets@.len() == s.outer_planets@.len()
    &&& forall|i: int| 0 <= i < s.outer_planets@.len()
        ==> planet_matches(s.outer_planets@[i], #[trigger] r.outer_planets@[i])
    &&& r.asteroid_belts@.len() == s.asteroid_belts@.len()
    &&& forall|i: int| 0 <= i < s.asteroid_belts@.len()
        ==> asteroid_belt_matches(s.asteroid_belts@[i], #[trigger] r.asteroid_belts@[i])
    &&& match (s.oort_cloud, r.oort_cloud) {
        (Some(o), Some(rec)) => oort_cloud_matches(o, rec),
        (None, None) => true,
        _ => false,
    }
    &&& r.frost_line == s.frost_line
    &&& r.habitable_zone_inner == s.habitable_zone_inner
    &&& r.habitable_zone_outer == s.habitable_zone_outer
}

/// Two moon records carry the same data.
pub open spec fn moon_records_agree(r1: MoonRecord, r2: MoonRecord) -> bool {
    &&& r1.moon_type@ == r2.moon_type@
    &&& r1.mass == r2.mass
    &&& r1.orbital_radius == r2.orbital_radius
    &&& r1.position == r2.position
}

/// Two planet records carry the same data, moons included.
pub open spec fn planet_records_agree(r1: PlanetRecord, r2: PlanetRecord) -> bool {
    &&& r1.planet_type@ == r2.planet_type@
    &&& r1.mass == r2.mass
    &&& r1.orbital_radius == r2.orbital_radius
    &&& r1.position == r2.position
    &&& r1.moon_count == r2.moon_count
    &&& r1.moons@.len() == r2.moons@.len()
    &&& forall|i: int| 0 <= i < r1.moons@.len()
        ==> moon_records_agree(#[trigger] r1.moons@[i], r2.moons@[i])
}

/// Two asteroid records carry the same data.
pub open spec fn asteroid_records_agree(r1: AsteroidRecord, r2: AsteroidRecord) -> bool {
    &&& r1.asteroid_type@ == r2.asteroid_type@
    &&& r1.mass == r2.mass
    &&& r1.diameter == r2.diameter
    &&& r1.orbital_radius == r2.orbital_radius
    &&& r1.position == r2.position
}

/// Two belt records carry the same data, notable members included.
pub open spec fn asteroid_belt_records_agree(r1: AsteroidBeltRecord, r2: AsteroidBeltRecord) -> bool {
    &&& r1.name@ == r2.name@
    &&& r1.inner_radius == r2.inner_radius
    &&& r1.outer_radius == r2.outer_radius
    &&& r1.total_mass == r2.total_mass
    &&& r1.asteroid_count == r2.asteroid_count
    &&& r1.largest_bodies@.len() == r2.largest_bodies@.len()
    &&& forall|i: int| 0 <= i < r1.largest_bodies@.len()
        ==> asteroid_records_agree(#[trigger] r1.largest_bodies@[i], r2.largest_bodies@[i])
}

/// Two comet records carry the same data.
pub open spec fn comet_records_agree(r1: CometRecord, r2: CometRecord) -> bool {
    &&& r1.comet_type@ == r2.comet_type@
    &&& r1.mass == r2.mass
    &&& r1.nucleus_diameter == r2.nucleus_diameter
    &&& r1.orbital_radius == r2.orbital_radius
    &&& r1.eccentricity == r2.eccentricity
    &&& r1.position == r2.position
}

/// Two Oort-cloud records carry the same data, notable comets included.
pub open spec fn oort_cloud_records_agree(r1: OortCloudRecord, r2: OortCloudRecord) -> bool {
    &&& r1.inner_radius == r2.inner_radius
    &&& r1.outer_radius == r2.outer_radius
    &&& r1.estimated_population == r2.estimated_population
    &&& r1.total_mass == r2.total_mass
    &&& r1.notable_comets@.len() == r2.notable_comets@.len()
    &&& forall|i: int| 0 <= i < r1.notable_comets@.len()
        ==> comet_records_agree(#[trigger] r1.notable_comets@[i], r2.notable_comets@[i])
}

/// Two star records carry the same data.
pub open spec fn star_records_agree(r1: StarRecord, r2: StarRecord) -> bool {
    &&& r1.id == r2.id
    &&& r1.star_type@ == r2.star_type@
    &&& r1.mass == r2.mass
    &&& r1.luminosity == r2.luminosity
    &&& r1.temperature == r2.temperature
    &&& r1.position == r2.position
}

/// Two configuration records carry the same data.
pub open spec fn configuration_records_agree(r1: ConfigurationRecord, r2: ConfigurationRecord) -> bool {
    &&& r1.kind@ == r2.kind@
    &&& r1.separation_au == r2.separation_au
    &&& r1.is_contact == r2.is_contact
    &&& r1.inner_separation_au == r2.inner_separation_au
    &&& r1.outer_separation_au == r2.outer_separation_au
}

/// Two component records carry the same data, planets included.
pub open spec fn component_records_agree(
    r1: StellarComponentRecord,
    r2: StellarComponentRecord,
) -> bool {
    &&& r1.star_indices@ == r2.star_indices@
    &&& r1.barycenter == r2.barycenter
    &&& r1.combined_mass == r2.combined_mass
    &&& r1.internal_separation == r2.internal_separation
    &&& r1.is_interacting == r2.is_interacting
    &&& r1.planet_inner_limit == r2.planet_inner_limit
    &&& r1.planet_outer_limit == r2.planet_outer_limit
    &&& r1.frost_line == r2.frost_line
    &&& r1.habitable_zone_inner == r2.habitable_zone_inner
    &&& r1.habitable_zone_outer == r2.habitable_zone_outer
    &&& r1.inner_planets@.len() == r2.inner_planets@.len()
    &&& forall|i: int| 0 <= i < r1.inner_planets@.len()
        ==> planet_records_agree(#[trigger] r1.inner_planets@[i], r2.inner_planets@[i])
    &&& r1.outer_planets@.len() == r2.outer_planets@.len()
    &&& forall|i: int| 0 <= i < r1.outer_planets@.len()
        ==> planet_records_agree(#[trigger] r1.outer_planets@[i], r2.outer_planets@[i])
}

/// Two system records carry the same data throughout the hierarchy.
pub open spec fn system_records_agree(r1: StarSystemRecord, r2: StarSystemRecord) -> bool {
    &&& r1.star_id == r2.star_id
    &&& r1.position == r2.position
    &&& r1.stars@.len() == r2.stars@.len()
    &&& forall|i: int| 0 <= i < r1.stars@.len()
        ==> star_records_agree(#[trigger] r1.stars@[i], r2.stars@[i])
    &&& configuration_records_agree(r1.configuration, r2.configuration)
    &&& r1.stellar_components@.len() == r2.stellar_components@.len()
    &&& forall|i: int| 0 <= i < r1.stellar_components@.len()
        ==> component_records_agree(
            #[trigger] r1.stellar_components@[i],
            r2.stellar_components@[i],
        )
    &&& r1.inner_planets@.len() == r2.inner_planets@.len()
    &&& forall|i: int| 0 <= i < r1.inner_planets@.len()
        ==> planet_records_agree(#[trigger] r1.inner_planets@[i], r2.inner_planets@[i])
    &&& r1.outer_planets@.len() == r2.outer_planets@.len()
    &&& forall|i: int| 0 <= i < r1.outer_planets@.len()
        ==> planet_records_agree(#[trigger] r1.outer_planets@[i], r2.outer_planets@[i])
    &&& r1.asteroid_belts@.len() == r2.asteroid_belts@.len()
    &&& forall|i: int| 0 <= i < r1.asteroid_belts@.len()
        ==> asteroid_belt_records_agree(
            #[trigger] r1.asteroid_belts@[i],
            r2.asteroid_belts@[i],
        )
    &&& match (r1.oort_cloud, r2.oort_cloud) {
        (Some(o1), Some(o2)) => oort_cloud_records_agree(o1, o2),
        (None, None) => true,
        _ => false,
    }
    &&& r1.frost_line == r2.frost_line
    &&& r1.habitable_zone_inner == r2.habitable_zone_inner
    &&& r1.habitable_zone_outer == r2.habitable_zone_outer
}

/// Records that project the same planet agree throughout.
pub proof fn lemma_planet_records_agree(p: Planet, r1: PlanetRecord, r2: PlanetRecord)
    requires
        planet_matches(p, r1),
        planet_matches(p, r2),
    ensures
        planet_records_agree(r1, r2),
{
    assert forall|i: int| 0 <= i < r1.moons@.len()
        implies moon_records_agree(#[trigger] r1.moons@[i], r2.moons@[i]) by {
        assert(moon_matches(p.moons@[i], r1.moons@[i]));
        assert(moon_matches(p.moons@[i], r2.moons@[i]));
    }
}

/// Records that project the same component agree throughout.
pub proof fn lemma_component_records_agree(
    c: StellarComponent,
    r1: StellarComponentRecord,
    r2: StellarComponentRecord,
)
    requires
        component_matches(c, r1),
        component_matches(c, r2),
    ensures
        component_records_agree(r1, r2),
{
    assert forall|i: int| 0 <= i < r1.inner_planets@.len()
        implies planet_records_agree(#[trigger] r1.inner_planets@[i], r2.inner_planets@[i]) by {
        lemma_planet_records_agree(c.inner_planets@[i], r1.inner_planets@[i], r2.inner_planets@[i]);
    }
    assert forall|i: int| 0 <= i < r1.outer_planets@.len()
        implies planet_records_agree(#[trigger] r1.outer_planets@[i], r2.outer_planets@[i]) by {
        lemma_planet_records_agree(c.outer_planets@[i], r1.outer_planets@[i], r2.outer_planets@[i]);
    }
}

/// Determinism of the hierarchical projection: any two records that
/// project the same system for the same queried identifier agree
/// throughout the hierarchy.  Repeating an identical system query
/// therefore yields identical hierarchical output.
pub proof fn lemma_projection_deterministic(
    star_id: u64,
    s: StarSystem,
    r1: StarSystemRecord,
    r2: StarSystemRecord,
)
    requires
        system_matches(star_id, s, r1),
        system_matches(star_id, s, r2),
    ensures
        system_records_agree(r1, r2),
{
    assert forall|i: int| 0 <= i < r1.stars@.len()
        implies star_records_agree(#[trigger] r1.stars@[i], r2.stars@[i]) by {
        assert(star_matches(s.stars@[i], r1.stars@[i]));
        assert(star_matches(s.stars@[i], r2.stars@[i]));
    }
    assert forall|i: int| 0 <= i < r1.stellar_components@.len()
        implies component_records_agree(
            #[trigger] r1.stellar_components@[i],
            r2.stellar_components@[i],
        ) by {
        lemma_component_records_agree(
            s.stellar_components@[i],
            r1.stellar_components@[i],
            r2.stellar_components@[i],
        );
    }
    assert forall|i: int| 0 <= i < r1.inner_planets@.len()
        implies planet_records_agree(#[trigger] r1.inner_planets@[i], r2.inner_planets@[i]) by {
        lemma_planet_records_agree(s.inner_planets@[i], r1.inner_planets@[i], r2.inner_planets@[i]);
    }
    assert forall|i: int| 0 <= i < r1.outer_planets@.len()
        implies planet_records_agree(#[trigger] r1.outer_planets@[i], r2.outer_planets@[i]) by {
        lemma_planet_records_agree(s.outer_planets@[i], r1.outer_planets@[i], r2.outer_planets@[i]);
    }
    assert forall|i: int| 0 <= i < r1.asteroid_belts@.len()
        implies asteroid_belt_records_agree(
            #[trigger] r1.asteroid_belts@[i],
            r2.asteroid_belts@[i],
        ) by {
        let b = s.asteroid_belts@[i];
        assert(asteroid_belt_matches(b, r1.asteroid_belts@[i]));
        assert(asteroid_belt_matches(b, r2.asteroid_belts@[i]));
        assert forall|j: int| 0 <= j < r1.asteroid_belts@[i].largest_bodies@.len()
            implies asteroid_records_agree(
                #[trigger] r1.asteroid_belts@[i].largest_bodies@[j],
                r2.asteroid_belts@[i].largest_bodies@[j],
            ) by {
            assert(asteroid_matches(b.largest_bodies@[j], r1.asteroid_belts@[i].largest_bodies@[j]));
            assert(asteroid_matches(b.largest_bodies@[j], r2.asteroid_belts@[i].largest_bodies@[j]));
        }
    }
    match s.oort_cloud {
        Some(o) => {
            assert(r1.oort_cloud is Some && r2.oort_cloud is Some);
            let o1 = r1.oort_cloud->0;
            let o2 = r2.oort_cloud->0;
            assert(oort_cloud_matches(o, o1));
            assert(oort_cloud_matches(o, o2));
            assert forall|j: int| 0 <= j < o1.notable_comets@.len()
                implies comet_records_agree(
                    #[trigger] o1.notable_comets@[j],
                    o2.notable_comets@[j],
                ) by {
                assert(comet_matches(o.notable_comets@[j], o1.notable_comets@[j]));
                assert(comet_matches(o.notable_comets@[j], o2.notable_comets@[j]));
            }
            assert(oort_cloud_records_agree(o1, o2));
        },
        None => {
            assert(r1.oort_cloud is None && r2.oort_cloud is None);
        },
    }
}

/// Hierarchy completeness at the record level: a well-formed triple
/// system projects to a record with at least two component entries, whose
/// member indices are exactly the system components' — together covering
/// every member star exactly once.
pub proof fn lemma_projected_triple_components(
    star_id: u64,
    s: StarSystem,
    r: StarSystemRecord,
)
    requires
        s.wf(),
        s.configuration.is_triple(),
        system_matches(star_id, s, r),
    ensures
        r.stellar_components@.len() >= 2,
        forall|i: int| 0 <= i < r.stellar_components@.len()
            ==> (#[trigger] r.stellar_components@[i]).star_indices@
                == s.stellar_components@[i].star_indices@,
{
    crate::model::lemma_triple_has_multiple_components(s);
    assert forall|i: int| 0 <= i < r.stellar_components@.len()
        implies (#[trigger] r.stellar_components@[i]).star_indices@
            == s.stellar_components@[i].star_indices@ by {
        assert(component_matches(s.stellar_components@[i], r.stellar_components@[i]));
    }
}

/// Expands one star system into its fully nested record.  The Oort cloud
/// field is omitted exactly when the system has none.
pub fn project_system(star_id: u64, system: &StarSystem) -> (r: StarSystemRecord)
    ensures
        system_matches(star_id, *system, r),
        r.oort_cloud is Some <==> system.oort_cloud is Some,
{
    let mut stars: Vec<StarRecord> = Vec::new();
    let mut i: usize = 0;
    while i < system.stars.len()
        invariant
            0 <= i <= system.stars@.len(),
            stars@.len() == i,
            forall|k: int| 0 <= k < i ==> star_matches(system.stars@[k], #[trigger] stars@[k]),
        decreases system.stars@.len() - i,
    {
        let s = star_to_record(&system.stars[i]);
        stars.push(s);
        i = i + 1;
    }
    let mut stellar_components: Vec<StellarComponentRecord> = Vec::new();
    let mut j: usize = 0;
    while j < system.stellar_components.len()
        invariant
            0 <= j <= system.stellar_components@.len(),
            stellar_components@.len() == j,
            forall|k: int| 0 <= k < j
                ==> component_matches(
                    system.stellar_components@[k],
                    #[trigger] stellar_components@[k],
                ),
        decreases system.stellar_components@.len() - j,
    {
        let c = component_to_record(&system.stellar_components[j]);
        stellar_components.push(c);
        j = j + 1;
    }
    let mut asteroid_belts: Vec<AsteroidBeltRecord> = Vec::new();
    let mut b: usize = 0;
    while b < system.asteroid_belts.len()
        invariant
            0 <= b <= system.asteroid_belts@.len(),
            asteroid_belts@.len() == b,
            forall|k: int| 0 <= k < b
                ==> asteroid_belt_matches(
                    system.asteroid_belts@[k],
                    #[trigger] asteroid_belts@[k],
                ),
        decreases system.asteroid_belts@.len() - b,
    {
        let belt = asteroid_belt_to_record(&system.asteroid_belts[b]);
        asteroid_belts.push(belt);
        b = b + 1;
    }
    let oort_cloud = match &system.oort_cloud {
        Some(oort) => Some(oort_cloud_to_record(oort)),
        None => None,
    };
    StarSystemRecord {
        star_id,
        position: system.position,
        stars,
        configuration: configuration_to_record(&system.configuration),
        stellar_components,
        inner_planets: planets_to_records(&system.inner_planets),
        outer_planets: planets_to_records(&system.outer_planets),
        asteroid_belts,
        oort_cloud,
        frost_line: system.frost_line,
        habitable_zone_inner: system.habitable_zone_inner,
        habitable_zone_outer: system.habitable_zone_outer,
    }
}

/// Converts an Oort cloud, notable comets included, to its record.
pub fn oort_cloud_to_record(oort: &OortCloud) -> (r: OortCloudRecord)
    ensures
        oort_cloud_matches(*oort, r),
{
    let mut notable_comets: Vec<CometRecord> = Vec::new();
    let mut i: usize = 0;
    while i < oort.notable_comets.len()
        invariant
            0 <= i <= oort.notable_comets@.len(),
            notable_comets@.len() == i,
            forall|k: int| 0 <= k < i
                ==> comet_matches(oort.notable_comets@[k], #[trigger] notable_comets@[k]),
        decreases oort.notable_comets@.len() - i,
    {
        let c = comet_to_record(&oort.notable_comets[i]);
        notable_comets.push(c);
        i = i + 1;
    }
    OortCloudRecord {
        inner_radius: oort.inner_radius,
        outer_radius: oort.outer_radius,
        estimated_population: oort.estimated_population,
        total_mass: oort.total_mass,
        notable_comets,
    }
}

} // verus!
