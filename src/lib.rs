//! A 3×3×3 twisty-puzzle model: cubies on an integer lattice, sticker
//! projection, slice rotations, a FIFO of pending moves and a drag recorder.

pub mod geometry;
pub mod cube;
pub mod slide;
pub mod puzzle;
pub mod census;
