//! The data model of the generated galaxy, as this layer sees it.
//!
//! Entities are produced by the generation engine and handed in as plain
//! values.  Every scalar that the engine reports as a real number is carried
//! here as a fixed-point integer in thousandths of the engine's unit
//! (a radius of `16.0` light-years is `16_000`), so that comparisons are
//! exact and deterministic.

use vstd::prelude::*;
use vstd::multiset::Multiset;

verus! {

/// Largest magnitude accepted for a position coordinate, in thousandths of a
/// light-year.  Keeps squared distances far inside the `i128` range.
pub const COORD_LIMIT: i64 = 2_000_000_000;

/// A 3-component vector of fixed-point coordinates (thousandths of a unit).
#[derive(Clone, Copy, PartialEq, Eq, Structural, Debug)]
pub struct Vec3 {
    /// First coordinate; for orbiting bodies it doubles as the orbital radius.
    pub x: i64,
    /// Second coordinate.
    pub y: i64,
    /// Third coordinate.
    pub z: i64,
}

impl Vec3 {
    /// Every coordinate is small enough that squared distances fit in `i128`.
    pub open spec fn wf(self) -> bool {
        &&& -COORD_LIMIT <= self.x <= COORD_LIMIT
        &&& -COORD_LIMIT <= self.y <= COORD_LIMIT
        &&& -COORD_LIMIT <= self.z <= COORD_LIMIT
    }
}

/// Stellar classification: main-sequence spectral classes and compact
/// remnants.  Closed set; the projection layer maps every variant to a label.
#[derive(Clone, Copy, PartialEq, Eq, Structural, Debug)]
pub enum StarType {
    /// Hottest, most massive main-sequence class.
    O,
    /// Blue-white main-sequence class.
    B,
    /// White main-sequence class.
    A,
    /// Yellow-white main-sequence class.
    F,
    /// Yellow main-sequence class, like the Sun.
    G,
    /// Orange main-sequence class.
    K,
    /// Red dwarf class, the most common.
    M,
    /// Degenerate remnant of a low-mass star.
    WhiteDwarf,
    /// Collapsed remnant of a massive star.
    NeutronStar,
    /// Remnant whose escape velocity exceeds light speed.
    BlackHole,
}

/// One generated star.  Immutable for a given seed and coordinate; the
/// identifier is stable and unique within a galaxy.
#[derive(Clone, Copy, PartialEq, Eq, Structural, Debug)]
pub struct Star {
    /// Stable identifier, unique within a galaxy for a fixed seed and config.
    pub id: u64,
    /// Position in galactic coordinates, thousandths of a light-year.
    pub position: Vec3,
    /// Mass in thousandths of a solar mass.
    pub mass: i64,
    /// Derived luminosity in thousandths of a solar luminosity.
    pub luminosity: i64,
    /// Derived surface temperature in thousandths of a kelvin.
    pub temperature: i64,
    /// Stellar classification.
    pub star_type: StarType,
}

impl Star {
    /// The position is within coordinate bounds.
    pub open spec fn wf(self) -> bool {
        self.position.wf()
    }
}

/// How the stars of one system group into dynamically interacting
/// components.  Separations are in thousandths of an AU.
#[derive(Clone, Copy, PartialEq, Eq, Structural, Debug)]
pub enum StellarConfiguration {
    /// One star.
    Single,
    /// Two stars in a tight orbit, possibly sharing an envelope.
    CloseBinary {
        /// Separation between the pair, thousandths of an AU.
        separation_au: i64,
        /// Whether the two stars are in contact.
        is_contact: bool,
    },
    /// Two stars orbiting at a wide separation.
    WideBinary {
        /// Separation between the pair, thousandths of an AU.
        separation_au: i64,
    },
    /// A close pair orbited by a distant third star.
    HierarchicalTriple {
        /// Separation of the close pair, thousandths of an AU.
        inner_separation_au: i64,
        /// Separation of the third star, thousandths of an AU.
        outer_separation_au: i64,
    },
    /// Three stars with no stable hierarchy.
    UnstableTriple,
}

impl StellarConfiguration {
    /// How many member stars the configuration calls for.
    pub open spec fn star_count(self) -> int {
        match self {
            StellarConfiguration::Single => 1,
            StellarConfiguration::CloseBinary { .. } => 2,
            StellarConfiguration::WideBinary { .. } => 2,
            StellarConfiguration::HierarchicalTriple { .. } => 3,
            StellarConfiguration::UnstableTriple => 3,
        }
    }

    /// A triple configuration, which decomposes into several components.
    pub open spec fn is_triple(self) -> bool {
        self is HierarchicalTriple || self is UnstableTriple
    }
}

/// Moon classification; closed set.
#[derive(Clone, Copy, PartialEq, Eq, Structural, Debug)]
pub enum MoonType {
    /// Predominantly silicate rock.
    Rocky,
    /// Predominantly ice.
    Icy,
    /// Mixed ice and rock.
    IceRock,
    /// A subsurface ocean under an icy shell.
    Ocean,
    /// Tidally heated, with active volcanism.
    Volcanic,
    /// Captured rather than formed in place.
    Captured,
    /// Retaining a substantial atmosphere.
    Atmospheric,
}

/// A moon of a planet.
#[derive(Clone, Copy, PartialEq, Eq, Structural, Debug)]
pub struct Moon {
    /// Classification.
    pub moon_type: MoonType,
    /// Mass in thousandths of a lunar mass.
    pub mass: i64,
    /// Position relative to the planet, thousandths of a kilometer; the
    /// first coordinate doubles as the orbital radius.
    pub position: Vec3,
}

/// Planet classification; closed set spanning rocky to giant.
#[derive(Clone, Copy, PartialEq, Eq, Structural, Debug)]
pub enum PlanetType {
    /// Below the mass of a full planet.
    Dwarf,
    /// Rocky, Earth-like in bulk.
    Terrestrial,
    /// Rocky and more massive than Earth.
    SuperEarth,
    /// Dry, thin-atmosphere rocky world.
    Desert,
    /// Surface dominated by liquid water.
    Ocean,
    /// Molten surface close to its star.
    Lava,
    /// Small volatile-rich world below Neptune's mass.
    MiniNeptune,
    /// Volatile-rich world somewhat below Neptune's mass.
    SubNeptune,
    /// Giant dominated by ices.
    IceGiant,
    /// Giant dominated by hydrogen and helium.
    GasGiant,
    /// Gas giant migrated close to its star.
    HotJupiter,
    /// Remnant core of a stripped gas giant.
    Chthonian,
    /// Carbon-rich rocky world.
    Carbon,
    /// Rocky world without a differentiated core.
    Coreless,
}

/// A planet and its moons.
#[derive(Clone, PartialEq, Eq, Debug)]
pub struct Planet {
    /// Classification.
    pub planet_type: PlanetType,
    /// Mass in thousandths of an Earth mass.
    pub mass: i64,
    /// Position relative to the component barycenter, thousandths of an AU;
    /// the first coordinate doubles as the orbital radius.
    pub position: Vec3,
    /// Moons, in orbital order.
    pub moons: Vec<Moon>,
}

/// Asteroid classification; closed set.
#[derive(Clone, Copy, PartialEq, Eq, Structural, Debug)]
pub enum AsteroidType {
    /// Carbon-rich.
    Carbonaceous,
    /// Stony.
    Silicate,
    /// Iron-nickel.
    Metallic,
}

/// One notable asteroid of a belt.
#[derive(Clone, Copy, PartialEq, Eq, Structural, Debug)]
pub struct Asteroid {
    /// Classification.
    pub asteroid_type: AsteroidType,
    /// Mass in thousandths of the engine's asteroid mass unit.
    pub mass: i64,
    /// Diameter in thousandths of a kilometer.
    pub diameter: i64,
    /// Orbital radius in thousandths of an AU.
    pub orbital_radius: i64,
    /// Position, thousandths of an AU.
    pub position: Vec3,
}

/// An asteroid belt.  The `largest_bodies` list holds notable members, not
/// the whole population.
#[derive(Clone, PartialEq, Eq, Debug)]
pub struct AsteroidBelt {
    /// Belt name.
    pub name: String,
    /// Inner radius, thousandths of an AU.
    pub inner_radius: i64,
    /// Outer radius, thousandths of an AU.
    pub outer_radius: i64,
    /// Total belt mass, thousandths of the engine's asteroid mass unit.
    pub total_mass: i64,
    /// Number of asteroids in the belt.
    pub asteroid_count: u64,
    /// Notable members; never more than `asteroid_count`.
    pub largest_bodies: Vec<Asteroid>,
}

impl AsteroidBelt {
    /// The notable-member list never exceeds the population count.
    pub open spec fn wf(self) -> bool {
        self.largest_bodies@.len() <= self.asteroid_count
    }
}

/// Comet classification; closed set.
#[derive(Clone, Copy, PartialEq, Eq, Structural, Debug)]
pub enum CometType {
    /// Orbital period under two centuries.
    ShortPeriod,
    /// Orbital period over two centuries.
    LongPeriod,
    /// On an unbound trajectory.
    Hyperbolic,
}

/// One notable comet of an Oort cloud.
#[derive(Clone, Copy, PartialEq, Eq, Structural, Debug)]
pub struct Comet {
    /// Classification.
    pub comet_type: CometType,
    /// Mass in thousandths of the engine's comet mass unit.
    pub mass: i64,
    /// Nucleus diameter in thousandths of a kilometer.
    pub nucleus_diameter: i64,
    /// Semi-major axis in thousandths of an AU.
    pub orbital_radius: i64,
    /// Orbital eccentricity in thousandths.
    pub eccentricity: i64,
    /// Position, thousandths of an AU.
    pub position: Vec3,
}

/// The distant shell of icy bodies around a system.  Its population is an
/// estimate; only notable comets are materialized.
#[derive(Clone, PartialEq, Eq, Debug)]
pub struct OortCloud {
    /// Inner radius, thousandths of an AU.
    pub inner_radius: i64,
    /// Outer radius, thousandths of an AU.
    pub outer_radius: i64,
    /// Estimated number of objects; never materialized.
    pub estimated_population: u64,
    /// Total mass, thousandths of the engine's comet mass unit.
    pub total_mass: i64,
    /// Notable members.
    pub notable_comets: Vec<Comet>,
}

/// One gravitationally bound group of one or two stars within a system,
/// host to its own planetary system.
#[derive(Clone, PartialEq, Eq, Debug)]
pub struct StellarComponent {
    /// Indices into the owning system's star list.
    pub star_indices: Vec<usize>,
    /// Barycenter, thousandths of an AU.
    pub barycenter: Vec3,
    /// Combined mass, thousandths of a solar mass.
    pub combined_mass: i64,
    /// Separation between member stars, thousandths of an AU.
    pub internal_separation: i64,
    /// Whether the member stars interact.
    pub is_interacting: bool,
    /// Innermost stable planet orbit, thousandths of an AU.
    pub planet_inner_limit: i64,
    /// Outermost stable planet orbit, thousandths of an AU.
    pub planet_outer_limit: i64,
    /// Frost line, thousandths of an AU.
    pub frost_line: i64,
    /// Inner edge of the habitable zone, thousandths of an AU.
    pub habitable_zone_inner: i64,
    /// Outer edge of the habitable zone, thousandths of an AU.
    pub habitable_zone_outer: i64,
    /// Planets inside the frost line, in orbital order.
    pub inner_planets: Vec<Planet>,
    /// Planets at or beyond the frost line, in orbital order.
    pub outer_planets: Vec<Planet>,
}

impl StellarComponent {
    /// A component holds one or two stars, all indices within the owning
    /// system, and each planet on the side of the frost line its list says.
    pub open spec fn wf(self, n_stars: int) -> bool {
        &&& 1 <= self.star_indices@.len() <= 2
        &&& forall|k: int| 0 <= k < self.star_indices@.len()
            ==> (#[trigger] self.star_indices@[k]) < n_stars
        &&& forall|k: int| 0 <= k < self.inner_planets@.len()
            ==> (#[trigger] self.inner_planets@[k]).position.x < self.frost_line
        &&& forall|k: int| 0 <= k < self.outer_planets@.len()
            ==> (#[trigger] self.outer_planets@[k]).position.x >= self.frost_line
    }
}

/// The member-star indices of a component, as a multiset of integers.
pub open spec fn component_indices(comp: StellarComponent) -> Multiset<int> {
    comp.star_indices@.map_values(|u: usize| u as int).to_multiset()
}

/// The member-star indices of all components together.
pub open spec fn all_component_indices(comps: Seq<StellarComponent>) -> Multiset<int>
    decreases comps.len(),
{
    if comps.len() == 0 {
        Multiset::empty()
    } else {
        component_indices(comps.first()).add(all_component_indices(comps.drop_first()))
    }
}

/// The root aggregate for one queried star identifier.
#[derive(Clone, PartialEq, Eq, Debug)]
pub struct StarSystem {
    /// System position in galactic coordinates, thousandths of a light-year.
    pub position: Vec3,
    /// Member stars, in the engine's order.
    pub stars: Vec<Star>,
    /// How the stars group into components.
    pub configuration: StellarConfiguration,
    /// The gravitationally bound components, each with its planets.
    pub stellar_components: Vec<StellarComponent>,
    /// Planets inside the frost line, mirrored at system level.
    pub inner_planets: Vec<Planet>,
    /// Planets at or beyond the frost line, mirrored at system level.
    pub outer_planets: Vec<Planet>,
    /// Asteroid belts.
    pub asteroid_belts: Vec<AsteroidBelt>,
    /// The Oort cloud, absent when the engine does not model one here.
    pub oort_cloud: Option<OortCloud>,
    /// System frost line, thousandths of an AU.
    pub frost_line: i64,
    /// Inner edge of the system habitable zone, thousandths of an AU.
    pub habitable_zone_inner: i64,
    /// Outer edge of the system habitable zone, thousandths of an AU.
    pub habitable_zone_outer: i64,
}

impl StarSystem {
    /// The system invariant: the star count matches the configuration,
    /// every component is well formed, the components' member indices cover
    /// every star index exactly once, and every belt is well formed.
    pub open spec fn wf(self) -> bool {
        &&& self.stars@.len() == self.configuration.star_count()
        &&& forall|k: int| 0 <= k < self.stellar_components@.len()
            ==> (#[trigger] self.stellar_components@[k]).wf(self.stars@.len() as int)
        &&& all_component_indices(self.stellar_components@)
            =~= Seq::new(self.stars@.len(), |i: int| i).to_multiset()
        &&& forall|k: int| 0 <= k < self.asteroid_belts@.len()
            ==> (#[trigger] self.asteroid_belts@[k]).wf()
    }
}

/// Components of two stars at most can cover `n` stars only with at least
/// `n / 2` of them (rounded up).
proof fn lemma_all_component_indices_len(comps: Seq<StellarComponent>, n: int)
    requires
        forall|k: int| 0 <= k < comps.len() ==> (#[trigger] comps[k]).wf(n),
    ensures
        all_component_indices(comps).len() <= 2 * comps.len(),
    decreases comps.len(),
{
    broadcast use vstd::seq_lib::group_to_multiset_ensures;

    if comps.len() != 0 {
        let rest = comps.drop_first();
        assert(forall|k: int| 0 <= k < rest.len() ==> rest[k] == comps[k + 1]);
        lemma_all_component_indices_len(rest, n);
        assert(comps.first().wf(n));
        assert(component_indices(comps.first()).len()
            == comps.first().star_indices@.map_values(|u: usize| u as int).len());
    }
}

/// Hierarchy completeness: in a triple configuration the components number
/// at least two, and their member indices together cover every star index
/// exactly once.
pub proof fn lemma_triple_has_multiple_components(sys: StarSystem)
    requires
        sys.wf(),
        sys.configuration.is_triple(),
    ensures
        sys.stellar_components@.len() >= 2,
        all_component_indices(sys.stellar_components@)
            =~= Seq::new(sys.stars@.len(), |i: int| i).to_multiset(),
{
    broadcast use vstd::seq_lib::group_to_multiset_ensures;

    let n = sys.stars@.len() as int;
    let cover = Seq::new(sys.stars@.len(), |i: int| i);
    assert(n == 3);
    assert(cover.len() == 3);
    assert(all_component_indices(sys.stellar_components@).len() == 3);
    lemma_all_component_indices_len(sys.stellar_components@, n);
}

} // verus!
