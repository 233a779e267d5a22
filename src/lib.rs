//! Fading particles: square quads whose transparency follows a per-particle
//! lifetime, and which respawn at a random place with a random colour when
//! that lifetime runs out.
//!
//! Positions are whole pixels. Lifetime quantities are fixed-point numbers in
//! thousandths of a unit, so an increment of `1000` advances by one unit.
mod random;

pub mod driver;
pub mod geometry;
pub mod lifetime;
pub mod particles;

use vstd::prelude::*;

verus! {

/// Width of the drawing surface, in pixels.
pub const WIDTH: u32 = 1920;

/// Height of the drawing surface, in pixels.
pub const HEIGHT: u32 = 1080;

/// Edge length of every particle quad, in pixels.
pub const QUAD: u32 = 2;

/// Number of particles in the full scene.
pub const ENTITIES: usize = 10000;

} // verus!
