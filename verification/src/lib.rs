//! A query-and-projection layer over a seed-deterministic galaxy generation
//! engine.
//!
//! The library sits between an opaque generation engine and a consumer such as
//! a renderer.  It performs spatial range queries over a lazily generated star
//! field, truncates result sets under caps, and flattens the irregular object
//! graph of a star system (stars, stellar components, planets, moons, belts,
//! an optional Oort cloud) into two projection shapes: bulk columnar listings
//! and a fully nested hierarchical record.
//!
//! The generation engine itself (star positions, masses, system contents as a
//! function of seed and configuration) is an external collaborator: callers
//! fetch entities from it and hand them to the query functions here as plain
//! values.  All lengths, radii and masses are carried as fixed-point integers
//! in thousandths of the engine's units (light-years, AU, kilometers, solar,
//! Earth or lunar masses), so that clamping, distance ordering and projection
//! are exact.

pub mod columnar;
pub mod model;
pub mod projector;
pub mod session;
pub mod spatial;
