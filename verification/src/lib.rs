//! Graphics state for a 2D game framework: the backend description, the window
//! mode, the screen coordinate system, the model-view transform stack, the
//! sampler cache and the blend mode of the active shader.
//!
//! Coordinates, colours and matrices are single-precision floating-point values in
//! the framework; this library stores each of them as its IEEE-754 bit pattern
//! (`f32::to_bits`) and never computes with them, so that every value a caller
//! hands in comes back bit for bit.
use vstd::prelude::*;

pub mod backend;
pub mod conf;
pub mod error;
pub mod graphics;
pub mod text;
pub mod types;
pub mod sampler;

verus! {

} // verus!
