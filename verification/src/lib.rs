//! Core logic of a two-player pong game: paddle movement with clamping,
//! horizontal ball motion with direction flips at the playfield edges, and
//! the initial placement of the scene's entities.
//!
//! Positions are integers in subpixel units (1000 subpixels per pixel), so
//! that per-frame motion over an elapsed time in whole milliseconds is exact
//! integer arithmetic.

pub mod ball;
pub mod config;
pub mod paddle;
pub mod scene;

use vstd::prelude::*;

verus! {

} // verus!
