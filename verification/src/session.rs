//! Session state and the caller-facing query surface.
//!
//! The session holds the active seed and generation configuration and
//! models the engine binding as an explicit state: `Unbound` until the
//! first bind, `Bound` with the active configuration afterwards.  Changing
//! the seed or loading a configuration rebinds atomically.  Until the first
//! bind every query returns no data — a benign, correctable condition, not
//! an error.
//!
//! The generation engine is an external collaborator: a pure function of
//! seed, configuration and query.  Callers fetch candidate entities from it
//! and pass them in; the queries here clamp, cap, order and project those
//! entities, and the contracts pin the result for every value the engine
//! could hand back.

use vstd::prelude::*;
use crate::columnar::{columnar_matches, to_columnar, Columnar};
use crate::model::{Star, StarSystem, Vec3};
use crate::projector::{project_system, system_matches, StarSystemRecord};
use crate::spatial::{
    closer_eq, dist2, lemma_nearby_selection_props, nearby_selection, select_nearby, within_radius,
};

verus! {

/// Default maximum nearby-query radius, thousandths of a light-year.
pub const DEFAULT_NEARBY_MAX_RADIUS: i64 = 16_000;

/// Default structure sampling block size, thousandths of a light-year.
pub const DEFAULT_STRUCTURE_BLOCK_SIZE: i64 = 100_000;

/// Default number of samples per structure block.
pub const DEFAULT_STRUCTURE_SAMPLES_PER_BLOCK: u64 = 16;

/// Generation-tuning parameters forwarded to the engine.
#[derive(Clone, Copy, PartialEq, Eq, Structural, Debug)]
pub struct GalaxyConfig {
    /// Cap applied to every nearby-query radius, thousandths of a
    /// light-year.
    pub nearby_max_radius: i64,
    /// Structure sampling block size, thousandths of a light-year.
    pub structure_block_size: i64,
    /// Number of samples per structure block.
    pub structure_samples_per_block: u64,
}

impl GalaxyConfig {
    /// The configuration a fresh binding starts from.
    pub open spec fn default_spec() -> GalaxyConfig {
        GalaxyConfig {
            nearby_max_radius: DEFAULT_NEARBY_MAX_RADIUS,
            structure_block_size: DEFAULT_STRUCTURE_BLOCK_SIZE,
            structure_samples_per_block: DEFAULT_STRUCTURE_SAMPLES_PER_BLOCK,
        }
    }
}

impl Default for GalaxyConfig {
    /// The configuration a fresh binding starts from.
    fn default() -> (c: GalaxyConfig)
        ensures
            c == GalaxyConfig::default_spec(),
    {
        GalaxyConfig {
            nearby_max_radius: DEFAULT_NEARBY_MAX_RADIUS,
            structure_block_size: DEFAULT_STRUCTURE_BLOCK_SIZE,
            structure_samples_per_block: DEFAULT_STRUCTURE_SAMPLES_PER_BLOCK,
        }
    }
}

/// Whether the session is bound to a generation engine, and with which
/// configuration.
#[derive(Clone, Copy, PartialEq, Eq, Structural, Debug)]
pub enum Binding {
    /// No engine bound yet; queries return no data.
    Unbound,
    /// An engine is bound with this configuration.
    Bound {
        /// The active generation configuration.
        config: GalaxyConfig,
    },
}

/// The radius actually used by a nearby query: the requested radius capped
/// at the configured maximum, and never negative.
pub open spec fn effective_radius_spec(radius: i64, max_radius: i64) -> i64 {
    let capped = if radius < max_radius {
        radius
    } else {
        max_radius
    };
    if capped < 0 {
        0
    } else {
        capped
    }
}

/// The structure query's answer over candidate stars: the first `cap`
/// candidates in the engine's order.
pub open spec fn structure_selection(cap: int, cands: Seq<Star>) -> Seq<Star> {
    if cap < cands.len() {
        cands.take(cap)
    } else {
        cands
    }
}

/// Columnar star listing plus the advisory population estimate.
#[derive(Debug, PartialEq)]
pub struct StructureData {
    /// Parallel arrays describing the returned stars.
    pub columnar: Columnar,
    /// Estimated total stars in the galaxy, extrapolated by the engine from
    /// its density model at a fixed reference radius.  Advisory, not exact;
    /// never negative.
    pub estimated_total_stars: i64,
}

/// Columnar star listing plus the radius the query actually used.
#[derive(Debug, PartialEq)]
pub struct NearbyData {
    /// Parallel arrays describing the returned stars.
    pub columnar: Columnar,
    /// The clamped radius the query used, thousandths of a light-year;
    /// reported so callers can see when their request was altered.
    pub effective_radius: i64,
}

/// Session/config state: the active seed and the engine binding.
pub struct GalaxySession {
    /// The seed used at the next bind.
    pub seed: i64,
    /// The engine binding state.
    pub binding: Binding,
}

impl GalaxySession {
    /// An engine is bound.
    pub open spec fn bound(self) -> bool {
        self.binding is Bound
    }

    /// The active configuration of a bound session.
    pub open spec fn config_spec(self) -> GalaxyConfig
        recommends
            self.bound(),
    {
        self.binding->config
    }

    /// The nearby-radius cap: the bound configuration's, or the default
    /// before the first bind.
    pub open spec fn nearby_max(self) -> i64 {
        if self.bound() {
            self.config_spec().nearby_max_radius
        } else {
            DEFAULT_NEARBY_MAX_RADIUS
        }
    }

    /// A fresh session: default seed, no engine bound.
    pub fn init() -> (s: GalaxySession)
        ensures
            s.seed == 0,
            !s.bound(),
    {
        GalaxySession { seed: 0, binding: Binding::Unbound }
    }

    /// First bind: attaches an engine built from the current seed and the
    /// default configuration.
    pub fn ready(&mut self)
        ensures
            final(self).seed == old(self).seed,
            final(self).binding == (Binding::Bound { config: GalaxyConfig::default_spec() }),
    {
        self.binding = Binding::Bound { config: GalaxyConfig::default() };
    }

    /// Sets the seed and rebinds a fresh engine with the default
    /// configuration, discarding the previous binding.
    pub fn set_galaxy_seed(&mut self, seed: i64)
        ensures
            final(self).seed == seed,
            final(self).binding == (Binding::Bound { config: GalaxyConfig::default_spec() }),
    {
        self.seed = seed;
        self.binding = Binding::Bound { config: GalaxyConfig::default() };
    }

    /// Applies an already-parsed configuration and rebinds a fresh engine
    /// with the current seed.  Reading and parsing the configuration source
    /// is the caller's concern; a failed parse never reaches this method,
    /// so the previous binding stays intact.
    pub fn load_config(&mut self, config: GalaxyConfig)
        ensures
            final(self).seed == old(self).seed,
            final(self).binding == (Binding::Bound { config }),
    {
        self.binding = Binding::Bound { config };
    }

    /// Sets the nearby-radius cap of a bound session; before the first bind
    /// there is no configuration to change, and the session is untouched.
    pub fn set_nearby_max_radius(&mut self, radius: i64)
        ensures
            final(self).seed == old(self).seed,
            old(self).bound() ==> final(self).binding == (Binding::Bound {
                config: GalaxyConfig { nearby_max_radius: radius, ..old(self).config_spec() },
            }),
            !old(self).bound() ==> *final(self) == *old(self),
    {
        if let Binding::Bound { config } = self.binding {
            self.binding = Binding::Bound {
                config: GalaxyConfig { nearby_max_radius: radius, ..config },
            };
        }
    }

    /// The nearby-radius cap currently in force.
    pub fn get_nearby_max_radius(&self) -> (r: i64)
        ensures
            r == self.nearby_max(),
    {
        match self.binding {
            Binding::Bound { config } => config.nearby_max_radius,
            Binding::Unbound => DEFAULT_NEARBY_MAX_RADIUS,
        }
    }

    /// Sets the structure block size of a bound session; before the first
    /// bind the session is untouched.
    pub fn set_structure_block_size(&mut self, size: i64)
        ensures
            final(self).seed == old(self).seed,
            old(self).bound() ==> final(self).binding == (Binding::Bound {
                config: GalaxyConfig { structure_block_size: size, ..old(self).config_spec() },
            }),
            !old(self).bound() ==> *final(self) == *old(self),
    {
        if let Binding::Bound { config } = self.binding {
            self.binding = Binding::Bound {
                config: GalaxyConfig { structure_block_size: size, ..config },
            };
        }
    }

    /// Sets the samples-per-block count of a bound session; before the
    /// first bind the session is untouched.
    pub fn set_structure_samples_per_block(&mut self, samples: u64)
        ensures
            final(self).seed == old(self).seed,
            old(self).bound() ==> final(self).binding == (Binding::Bound {
                config: GalaxyConfig {
                    structure_samples_per_block: samples,
                    ..old(self).config_spec()
                },
            }),
            !old(self).bound() ==> *final(self) == *old(self),
    {
        if let Binding::Bound { config } = self.binding {
            self.binding = Binding::Bound {
                config: GalaxyConfig { structure_samples_per_block: samples, ..config },
            };
        }
    }

    /// Whether an engine is bound; callers consult this before fetching
    /// entities from the engine.
    pub fn is_bound(&self) -> (b: bool)
        ensures
            b == self.bound(),
    {
        match self.binding {
            Binding::Bound { .. } => true,
            Binding::Unbound => false,
        }
    }

    /// The galaxy extent: the engine's reported radius when bound, zero
    /// before the first bind.
    pub fn get_galaxy_radius(&self, engine_radius: i64) -> (r: i64)
        ensures
            self.bound() ==> r == engine_radius,
            !self.bound() ==> r == 0,
    {
        match self.binding {
            Binding::Bound { .. } => engine_radius,
            Binding::Unbound => 0,
        }
    }

    /// The radius a nearby query will actually use for a given request.
    pub fn effective_nearby_radius(&self, radius: i64) -> (r: i64)
        ensures
            r == effective_radius_spec(radius, self.nearby_max()),
    {
        let max_radius = self.get_nearby_max_radius();
        let capped = if radius < max_radius {
            radius
        } else {
            max_radius
        };
        if capped < 0 {
            0
        } else {
            capped
        }
    }

    /// Bulk structure query: truncates the engine's representative star
    /// sample to at most `max_stars` (keeping the engine's salience order),
    /// serializes it columnarly, and attaches the advisory population
    /// estimate, clamped to be non-negative.  Returns no data exactly when
    /// the session is unbound.
    pub fn get_structure(
        &self,
        max_stars: usize,
        candidates: &Vec<Star>,
        estimated_total: i64,
    ) -> (r: Option<StructureData>)
        ensures
            r is Some <==> self.bound(),
            r matches Some(d) ==> {
                &&& columnar_matches(
                    structure_selection(max_stars as int, candidates@),
                    d.columnar,
                )
                &&& d.columnar.count <= max_stars
                &&& d.columnar.count <= candidates@.len()
                &&& d.estimated_total_stars == (if estimated_total < 0 {
                    0i64
                } else {
                    estimated_total
                })
                &&& d.estimated_total_stars >= 0
            },
    {
        match self.binding {
            Binding::Unbound => None,
            Binding::Bound { .. } => {
                let selected = truncate_stars(candidates, max_stars);
                let columnar = to_columnar(&selected);
                let estimated_total_stars: i64 = if estimated_total < 0 {
                    0
                } else {
                    estimated_total
                };
                Some(StructureData { columnar, estimated_total_stars })
            },
        }
    }

    /// Nearby query with an explicit cap: clamps the requested radius to
    /// the configured maximum, keeps only candidates within the clamped
    /// radius, orders them by increasing distance from `center` with a
    /// stable tie-break on identifier, truncates to `max_stars`, and
    /// serializes columnarly.  The clamped radius is reported back.
    /// Returns no data exactly when the session is unbound.
    pub fn get_nearby_stars_limited(
        &self,
        center: Vec3,
        radius: i64,
        max_stars: usize,
        candidates: &Vec<Star>,
    ) -> (r: Option<NearbyData>)
        requires
            center.wf(),
            forall|k: int| 0 <= k < candidates@.len() ==> (#[trigger] candidates@[k]).wf(),
        ensures
            r is Some <==> self.bound(),
            r matches Some(d) ==> {
                let eff = effective_radius_spec(radius, self.config_spec().nearby_max_radius);
                &&& d.effective_radius == eff
                &&& columnar_matches(
                    nearby_selection(center, eff as int, max_stars as int, candidates@),
                    d.columnar,
                )
                &&& d.columnar.count <= max_stars
                &&& d.columnar.count <= candidates@.len()
                &&& forall|i: int| 0 <= i < d.columnar.count
                    ==> dist2(center, #[trigger] d.columnar.positions@[i]) <= eff * eff
                &&& forall|i: int, j: int| 0 <= i < j < d.columnar.count
                    ==> dist2(center, #[trigger] d.columnar.positions@[i])
                        < dist2(center, #[trigger] d.columnar.positions@[j])
                    || (dist2(center, d.columnar.positions@[i])
                        == dist2(center, d.columnar.positions@[j])
                        && d.columnar.ids@[i] <= d.columnar.ids@[j])
            },
    {
        match self.binding {
            Binding::Unbound => None,
            Binding::Bound { config } => {
                let eff = self.effective_nearby_radius(radius);
                let selected = select_nearby(&center, eff, max_stars, candidates);
                let columnar = to_columnar(&selected);
                proof {
                    lemma_nearby_selection_props(
                        center,
                        eff as int,
                        max_stars as int,
                        candidates@,
                    );
                    assert forall|i: int| 0 <= i < columnar.count
                        implies dist2(center, #[trigger] columnar.positions@[i])
                            <= eff * eff by {
                        assert(within_radius(center, eff as int, selected@[i]));
                        assert(columnar.positions@[i] == selected@[i].position);
                    }
                    assert forall|i: int, j: int| 0 <= i < j < columnar.count
                        implies dist2(center, #[trigger] columnar.positions@[i])
                            < dist2(center, #[trigger] columnar.positions@[j])
                        || (dist2(center, columnar.positions@[i])
                            == dist2(center, columnar.positions@[j])
                            && columnar.ids@[i] <= columnar.ids@[j]) by {
                        assert(closer_eq(center, selected@[i], selected@[j]));
                        assert(columnar.positions@[i] == selected@[i].position);
                        assert(columnar.positions@[j] == selected@[j].position);
                        assert(columnar.ids@[i] == selected@[i].id);
                        assert(columnar.ids@[j] == selected@[j].id);
                    }
                }
                Some(NearbyData { columnar, effective_radius: eff })
            },
        }
    }

    /// Nearby query with the default cap of `10_000` stars.
    pub fn get_nearby_stars(
        &self,
        center: Vec3,
        radius: i64,
        candidates: &Vec<Star>,
    ) -> (r: Option<NearbyData>)
        requires
            center.wf(),
            forall|k: int| 0 <= k < candidates@.len() ==> (#[trigger] candidates@[k]).wf(),
        ensures
            r is Some <==> self.bound(),
            r matches Some(d) ==> {
                let eff = effective_radius_spec(radius, self.config_spec().nearby_max_radius);
                &&& d.effective_radius == eff
                &&& columnar_matches(
                    nearby_selection(center, eff as int, 10_000, candidates@),
                    d.columnar,
                )
                &&& d.columnar.count <= 10_000
            },
    {
        self.get_nearby_stars_limited(center, radius, 10_000, candidates)
    }

    /// Hierarchical query: expands the system fetched for `star_id` into
    /// its fully nested record.  Returns no data exactly when the session
    /// is unbound; the Oort cloud field of the record is absent exactly
    /// when the system has none.
    pub fn get_star_system(&self, star_id: u64, system: &StarSystem) -> (r: Option<
        StarSystemRecord,
    >)
        ensures
            r is Some <==> self.bound(),
            r matches Some(rec) ==> {
                &&& system_matches(star_id, *system, rec)
                &&& (rec.oort_cloud is Some <==> system.oort_cloud is Some)
            },
    {
        match self.binding {
            Binding::Unbound => None,
            Binding::Bound { .. } => Some(project_system(star_id, system)),
        }
    }
}

/// The first `cap` stars of the candidate list, in the engine's order.
fn truncate_stars(stars: &Vec<Star>, cap: usize) -> (r: Vec<Star>)
    ensures
        r@ == structure_selection(cap as int, stars@),
        r@.len() <= cap,
        r@.len() <= stars@.len(),
{
    let n = if cap < stars.len() {
        cap
    } else {
        stars.len()
    };
    let mut out: Vec<Star> = Vec::new();
    let mut i: usize = 0;
    while i < n
        invariant
            0 <= i <= n <= stars@.len(),
            out@ == stars@.subrange(0, i as int),
        decreases n - i,
    {
        let s = stars[i];
        out.push(s);
        proof {
            assert(out@ =~= stars@.subrange(0, i + 1 as int));
        }
        i = i + 1;
    }
    proof {
        if cap as int >= stars@.len() {
            assert(stars@.subrange(0, stars@.len() as int) =~= stars@);
        } else {
            assert(stars@.subrange(0, cap as int) =~= stars@.take(cap as int));
        }
    }
    out
}

/// Clamping is idempotent: a requested radius beyond the configured
/// maximum behaves exactly like requesting the maximum itself — same
/// effective radius, hence the same star selection.
pub proof fn lemma_radius_clamp_idempotent(
    s: GalaxySession,
    center: Vec3,
    radius: i64,
    cap: int,
    cands: Seq<Star>,
)
    requires
        s.bound(),
        radius > s.nearby_max(),
    ensures
        effective_radius_spec(radius, s.nearby_max())
            == effective_radius_spec(s.nearby_max(), s.nearby_max()),
        nearby_selection(
            center,
            effective_radius_spec(radius, s.nearby_max()) as int,
            cap,
            cands,
        ) == nearby_selection(
            center,
            effective_radius_spec(s.nearby_max(), s.nearby_max()) as int,
            cap,
            cands,
        ),
{
}

} // verus!
