//! Core logic for a hexagonal tile map with click-driven unit selection
//! and movement.
//!
//! The crate models the world as an axial hex grid bounded by a radius,
//! converts between hex cells and positions on the continuous world plane,
//! detects button release edges, and runs the per-tick selection/movement
//! state machine. Rendering, asset loading and raw input polling live in
//! the surrounding engine layer, which feeds this crate plain values.

pub mod hex_grid;
pub mod wizciv;
pub mod mouse_hex;
pub mod tile_select;
