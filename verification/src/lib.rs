//! Decoder for the geometry encoding used inside vector map tiles: a flat
//! stream of unsigned integers packing drawing commands (move/line/close)
//! and zig-zag-encoded coordinate deltas.

pub mod geometry;
pub mod layer_wrapper;
pub mod path;
