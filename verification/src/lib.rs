//! Core of a voxel-world sandbox simulation: chunk streaming bookkeeping,
//! block materialization, and a first-person controller.
//!
//! All quantities are fixed-point integers; the scale of each is documented
//! where it is declared.

pub mod geom;
pub mod input;
pub mod player;
pub mod stream;
pub mod world;

use vstd::prelude::*;

verus! {

/// Horizontal side length of a chunk, in voxel cells.
pub const CHUNK_WIDTH: i64 = 16;

/// Fixed-point value standing for 1.0 world unit in positions and
/// velocities (micro-units).
pub const UNIT: i64 = 1_000_000;

/// How a spawned entity takes part in physics: fixed in place, or moved
/// by the solver.
#[derive(Clone, Copy, PartialEq, Eq, Structural, Debug)]
pub enum BodyKind {
    Static,
    Dynamic,
}

} // verus!
