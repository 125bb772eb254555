//! Columnar projection of a star list.
//!
//! An ordered list of stars becomes parallel arrays — positions,
//! identifiers, luminosities, temperatures, masses, type labels — all of the
//! same length and index-aligned: entry `i` of every array describes star
//! `i` of the input.  The type-label mapping is total over the closed star
//! classification, with no fallthrough default.

use vstd::prelude::*;
use crate::model::{Star, StarType, Vec3};

verus! {

/// The canonical label of each star classification.
pub open spec fn star_type_label_spec(t: StarType) -> Seq<char> {
    match t {
        StarType::O => "O"@,
        StarType::B => "B"@,
        StarType::A => "A"@,
        StarType::F => "F"@,
        StarType::G => "G"@,
        StarType::K => "K"@,
        StarType::M => "M"@,
        StarType::WhiteDwarf => "WhiteDwarf"@,
        StarType::NeutronStar => "NeutronStar"@,
        StarType::BlackHole => "BlackHole"@,
    }
}

/// Canonical label of a star classification; covers every variant.
pub fn star_type_label(t: StarType) -> (r: String)
    ensures
        r@ == star_type_label_spec(t),
{
    match t {
        StarType::O => String::from_str("O"),
        StarType::B => String::from_str("B"),
        StarType::A => String::from_str("A"),
        StarType::F => String::from_str("F"),
        StarType::G => String::from_str("G"),
        StarType::K => String::from_str("K"),
        StarType::M => String::from_str("M"),
        StarType::WhiteDwarf => String::from_str("WhiteDwarf"),
        StarType::NeutronStar => String::from_str("NeutronStar"),
        StarType::BlackHole => String::from_str("BlackHole"),
    }
}

/// Parallel, index-aligned arrays describing a star list, for bulk transfer.
#[derive(Debug, PartialEq)]
pub struct Columnar {
    /// Star positions, thousandths of a light-year.
    pub positions: Vec<Vec3>,
    /// Star identifiers.
    pub ids: Vec<u64>,
    /// Luminosities, thousandths of a solar luminosity.
    pub luminosities: Vec<i64>,
    /// Temperatures, thousandths of a kelvin.
    pub temperatures: Vec<i64>,
    /// Masses, thousandths of a solar mass.
    pub masses: Vec<i64>,
    /// Canonical star-type labels.
    pub star_types: Vec<String>,
    /// Number of stars described; equals the length of every array.
    pub count: usize,
}

/// The columnar arrays describe exactly the stars of `stars`, index-aligned.
pub open spec fn columnar_matches(stars: Seq<Star>, c: Columnar) -> bool {
    &&& c.positions@.len() == stars.len()
    &&& c.ids@.len() == stars.len()
    &&& c.luminosities@.len() == stars.len()
    &&& c.temperatures@.len() == stars.len()
    &&& c.masses@.len() == stars.len()
    &&& c.star_types@.len() == stars.len()
    &&& c.count == stars.len()
    &&& forall|i: int| 0 <= i < stars.len() ==> c.positions@[i] == (#[trigger] stars[i]).position
    &&& forall|i: int| 0 <= i < stars.len() ==> c.ids@[i] == (#[trigger] stars[i]).id
    &&& forall|i: int| 0 <= i < stars.len()
        ==> c.luminosities@[i] == (#[trigger] stars[i]).luminosity
    &&& forall|i: int| 0 <= i < stars.len()
        ==> c.temperatures@[i] == (#[trigger] stars[i]).temperature
    &&& forall|i: int| 0 <= i < stars.len() ==> c.masses@[i] == (#[trigger] stars[i]).mass
    &&& forall|i: int| 0 <= i < stars.len()
        ==> c.star_types@[i]@ == star_type_label_spec((#[trigger] stars[i]).star_type)
}

/// Determinism of the columnar projection: any two columnar results that
/// describe the same star list agree entry for entry — same positions,
/// identifiers, scalars and labels, in the same order.  Repeating an
/// identical query therefore yields identical columnar output.
pub proof fn lemma_columnar_deterministic(stars: Seq<Star>, c1: Columnar, c2: Columnar)
    requires
        columnar_matches(stars, c1),
        columnar_matches(stars, c2),
    ensures
        c1.positions@ =~= c2.positions@,
        c1.ids@ =~= c2.ids@,
        c1.luminosities@ =~= c2.luminosities@,
        c1.temperatures@ =~= c2.temperatures@,
        c1.masses@ =~= c2.masses@,
        c1.star_types@.len() == c2.star_types@.len(),
        forall|i: int| 0 <= i < stars.len() ==> (#[trigger] c1.star_types@[i])@
            == (#[trigger] c2.star_types@[i])@,
        c1.count == c2.count,
{
    assert forall|i: int| 0 <= i < stars.len() implies c1.positions@[i] == c2.positions@[i]
        && c1.ids@[i] == c2.ids@[i] && c1.luminosities@[i] == c2.luminosities@[i]
        && c1.temperatures@[i] == c2.temperatures@[i] && c1.masses@[i] == c2.masses@[i] by {
        assert(c1.positions@[i] == (#[trigger] stars[i]).position);
        assert(c2.positions@[i] == stars[i].position);
    }
    assert(c1.positions@ =~= c2.positions@);
    assert(c1.ids@ =~= c2.ids@);
    assert(c1.luminosities@ =~= c2.luminosities@);
    assert(c1.temperatures@ =~= c2.temperatures@);
    assert(c1.masses@ =~= c2.masses@);
    assert forall|i: int| 0 <= i < stars.len() implies (#[trigger] c1.star_types@[i])@
        == (#[trigger] c2.star_types@[i])@ by {
        assert(c1.star_types@[i]@ == star_type_label_spec((#[trigger] stars[i]).star_type));
    }
}

/// Flattens an ordered star list into parallel arrays of equal length, each
/// entry aligned with the star at the same index.
pub fn to_columnar(stars: &Vec<Star>) -> (c: Columnar)
    ensures
        columnar_matches(stars@, c),
{
    let mut positions: Vec<Vec3> = Vec::new();
    let mut ids: Vec<u64> = Vec::new();
    let mut luminosities: Vec<i64> = Vec::new();
    let mut temperatures: Vec<i64> = Vec::new();
    let mut masses: Vec<i64> = Vec::new();
    let mut star_types: Vec<String> = Vec::new();
    let mut i: usize = 0;
    while i < stars.len()
        invariant
            0 <= i <= stars@.len(),
            positions@.len() == i,
            ids@.len() == i,
            luminosities@.len() == i,
            temperatures@.len() == i,
            masses@.len() == i,
            star_types@.len() == i,
            forall|k: int| 0 <= k < i ==> positions@[k] == (#[trigger] stars@[k]).position,
            forall|k: int| 0 <= k < i ==> ids@[k] == (#[trigger] stars@[k]).id,
            forall|k: int| 0 <= k < i ==> luminosities@[k] == (#[trigger] stars@[k]).luminosity,
            forall|k: int| 0 <= k < i ==> temperatures@[k] == (#[trigger] stars@[k]).temperature,
            forall|k: int| 0 <= k < i ==> masses@[k] == (#[trigger] stars@[k]).mass,
            forall|k: int| 0 <= k < i
                ==> star_types@[k]@ == star_type_label_spec((#[trigger] stars@[k]).star_type),
        decreases stars@.len() - i,
    {
        let s = stars[i];
        positions.push(s.position);
        ids.push(s.id);
        luminosities.push(s.luminosity);
        temperatures.push(s.temperature);
        masses.push(s.mass);
        star_types.push(star_type_label(s.star_type));
        i = i + 1;
    }
    Columnar {
        positions,
        ids,
        luminosities,
        temperatures,
        masses,
        star_types,
        count: stars.len(),
    }
}

} // verus!
