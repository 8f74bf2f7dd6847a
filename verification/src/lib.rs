//! Block-behavior dispatch and world-tick scheduling core of a voxel-world
//! game server.
//!
//! The crate decides, for every block position in a simulated world, how the
//! block there reacts to placement attempts, to neighboring-block changes and
//! to the passage of time (scheduled and random ticks).  Its pieces, leaves
//! first:
//!
//! * [`codec`] — packs a block's discrete property values into a dense
//!   integer identifier and back (mixed-radix positional packing), losslessly;
//! * [`geometry`] — positions and the six axis directions;
//! * [`registry`] — the closed catalogue of block kinds, their property
//!   schemas, their non-overlapping identifier ranges and the categorical
//!   predicates (solid, liquid, air, tags) over packed states;
//! * [`world`] — the authoritative store mapping positions to packed block
//!   states, plus the pending tick entries, drop records and truncation
//!   count; every read of block state goes through it;
//! * [`behavior`] — the uniform per-kind capability set (placement validity,
//!   placement computation, scheduled tick, random tick, neighbor reaction)
//!   with default implementations, dispatched by kind;
//! * [`cactus`], [`bell`], [`toggle`] — the concrete behaviors;
//! * [`mutation`] — the single mutation entry point (set, break, flags) and
//!   the depth-bounded neighbor-update propagator;
//! * [`scheduler`] — delay countdown, deterministic priority-ordered firing
//!   of due tick entries with lazy invalidation of stale ones, and the
//!   random-tick driver.
//!
//! The engine models world access sequentially: a world is an explicit value
//! handed by reference into every operation, never ambient state, so that the
//! embedding server owns the serialization of writes (per chunk or finer) and
//! multiple worlds stay independent.

pub mod codec;
pub mod geometry;
pub mod registry;
pub mod world;
pub mod bell;
pub mod toggle;
pub mod cactus;
pub mod behavior;
pub mod mutation;
pub mod scheduler;
