use vstd::prelude::*;

verus! {

use crate::hex_grid::{HexCoord, WorldPos};
use crate::wizciv::{MouseState, WorldData};

/// Per-tick pointer update: resolves the projected cursor position to a
/// hex cell and shifts both buttons' edge state. The raw reads (cursor
/// projection through the camera, button polling) happen in the engine
/// layer, which hands their results in as plain values.
#[derive(Copy, Clone, Default, Debug)]
pub struct MouseHexSystem;

impl MouseHexSystem {
    pub fn new() -> (result: MouseHexSystem) {
        MouseHexSystem
    }

    /// One tick of the pointer state, run before the selection logic.
    ///
    /// A present cursor position overwrites the hovered hex with the cell
    /// it resolves to (`None` when that cell is outside the world
    /// boundary); an absent one (pointer off-window) keeps the last known
    /// hex — a deliberate choice that avoids flicker. Then each button's
    /// edge state shifts: `was_down` takes the previous tick's `is_down`,
    /// which takes the raw read.
    pub fn run(
        &self,
        mouse_state: &mut MouseState,
        cursor: Option<WorldPos>,
        left_down: bool,
        right_down: bool,
        world_data: &WorldData,
    )
        ensures
            final(mouse_state).hex == match cursor {
                Some(pos) => HexCoord::from_pixel_spec(pos, world_data.radius as int),
                None => old(mouse_state).hex,
            },
            final(mouse_state).left_state.was_down == old(mouse_state).left_state.is_down,
            final(mouse_state).left_state.is_down == left_down,
            final(mouse_state).right_state.was_down == old(mouse_state).right_state.is_down,
            final(mouse_state).right_state.is_down == right_down,
    {
        match cursor {
            Some(pos) => {
                mouse_state.hex = HexCoord::from_pixel(pos, world_data.radius);
            },
            None => {},
        }
        mouse_state.left_state.was_down = mouse_state.left_state.is_down;
        mouse_state.left_state.is_down = left_down;
        mouse_state.right_state.was_down = mouse_state.right_state.is_down;
        mouse_state.right_state.is_down = right_down;
    }
}

} // verus!
