//! Decoding of a three-file studio model format, and the small geometry and
//! game-state types around it.
use vstd::prelude::*;

pub mod game;
pub mod geometry;
pub mod source_engine;

verus! {

} // verus!
