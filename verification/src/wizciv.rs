use vstd::prelude::*;

verus! {

use crate::hex_grid::{HexCoord, WorldPos, HEX_SIZE};

/// World radius of the shipped game setup.
pub const WORLD_HEX_RADIUS: i16 = 30;

/// The hexagonal boundary of a world session; set once at world
/// initialization and immutable afterwards.
#[derive(PartialEq, Eq, Structural, Copy, Clone, Default, Debug)]
pub struct WorldData {
    pub radius: i16,
}

impl WorldData {
    /// Whether a cell lies inside this world's boundary.
    pub fn contains(&self, hex: &HexCoord) -> (result: bool)
        ensures
            result == HexCoord::in_world(hex.q as int, hex.r as int, self.radius as int),
    {
        let q: i32 = hex.q as i32;
        let r: i32 = hex.r as i32;
        let rad: i32 = self.radius as i32;
        -rad <= q && q <= rad && -rad <= r && r <= rad && -rad <= q + r && q + r <= rad
    }

    /// Extent of the world in screen pixels: `(3 * radius + 1) * HEX_SIZE`.
    pub fn world_pixel_size(&self) -> (result: i32)
        ensures
            result == (3 * self.radius + 1) * HEX_SIZE,
    {
        (3 * (self.radius as i32) + 1) * HEX_SIZE
    }

    /// Every cell of this world, each exactly once, for the setup layer to
    /// lay a tile on. The order is left open; the three clauses pin the
    /// contents: only in-world cells, no cell twice, and no in-world cell
    /// missing.
    pub fn tiles(&self) -> (result: Vec<HexCoord>)
        ensures
            forall|i: int|
                0 <= i < result@.len() ==> HexCoord::in_world(
                    result@[i].q as int,
                    result@[i].r as int,
                    self.radius as int,
                ),
            forall|i: int, j: int| 0 <= i < j < result@.len() ==> result@[i] != result@[j],
            forall|h: HexCoord|
                HexCoord::in_world(h.q as int, h.r as int, self.radius as int)
                    ==> result@.contains(h),
    {
        let mut cells: Vec<HexCoord> = Vec::new();
        let rad: i32 = self.radius as i32;
        let mut q: i32 = -rad;
        while q <= rad
            invariant
                -rad <= q <= rad + 1 || (rad < 0 && q == -rad),
                -32768 <= -rad && rad <= 32767,
                rad == self.radius as int,
                forall|i: int|
                    0 <= i < cells@.len() ==> HexCoord::in_world(
                        cells@[i].q as int,
                        cells@[i].r as int,
                        rad as int,
                    ),
                forall|i: int| 0 <= i < cells@.len() ==> cells@[i].q < q,
                forall|i: int, j: int| 0 <= i < j < cells@.len() ==> cells@[i] != cells@[j],
                forall|h: HexCoord|
                    HexCoord::in_world(h.q as int, h.r as int, rad as int) && h.q < q
                        ==> cells@.contains(h),
            decreases rad + 1 - q,
        {
            let mut r: i32 = -rad;
            while r <= rad
                invariant
                    -rad <= r <= rad + 1,
                    -rad <= q <= rad,
                    -32768 <= -rad && rad <= 32767,
                    rad == self.radius as int,
                    forall|i: int|
                        0 <= i < cells@.len() ==> HexCoord::in_world(
                            cells@[i].q as int,
                            cells@[i].r as int,
                            rad as int,
                        ),
                    forall|i: int| 0 <= i < cells@.len() ==> cells@[i].q <= q,
                    forall|i: int|
                        0 <= i < cells@.len() && cells@[i].q == q ==> cells@[i].r < r,
                    forall|i: int, j: int| 0 <= i < j < cells@.len() ==> cells@[i] != cells@[j],
                    forall|h: HexCoord|
                        HexCoord::in_world(h.q as int, h.r as int, rad as int) && (h.q < q || (
                        h.q == q && h.r < r)) ==> cells@.contains(h),
                decreases rad + 1 - r,
            {
                if -rad <= q + r && q + r <= rad {
                    let cell = HexCoord { q: q as i16, r: r as i16 };
                    let ghost prev = cells@;
                    cells.push(cell);
                    proof {
                        assert(cell.q as int == q && cell.r as int == r);
                        assert(cells@[prev.len() as int] == cell);
                        assert(cells@.contains(cell));
                        assert forall|h: HexCoord|
                            HexCoord::in_world(h.q as int, h.r as int, rad as int) && (h.q < q
                                || (h.q == q && h.r < r + 1)) implies cells@.contains(h) by {
                            if h.q as int == q && h.r as int == r {
                                assert(h == cell);
                            } else {
                                assert(prev.contains(h));
                                let i = choose|i: int| 0 <= i < prev.len() && prev[i] == h;
                                assert(cells@[i] == h);
                            }
                        }
                    }
                }
                r = r + 1;
            }
            q = q + 1;
        }
        cells
    }
}

/// Edge-triggered state of one pointer button across two consecutive
/// ticks.
#[derive(PartialEq, Eq, Structural, Copy, Clone, Default, Debug)]
pub struct ButtonState {
    pub is_down: bool,
    pub was_down: bool,
}

impl ButtonState {
    /// A release edge: down on the previous tick, up on this one.
    pub open spec fn clicked(self) -> bool {
        self.was_down && !self.is_down
    }

    pub fn is_clicked(&self) -> (result: bool)
        ensures
            result == self.clicked(),
    {
        !self.is_down && self.was_down
    }
}

/// Per-tick pointer state: the hex under the cursor, if any, and the edge
/// state of both buttons. Updated exactly once per tick, before the
/// selection logic runs.
#[derive(Copy, Clone, Default, Debug)]
pub struct MouseState {
    pub hex: Option<HexCoord>,
    pub left_state: ButtonState,
    pub right_state: ButtonState,
}

/// A selectable game entity: its live position on the world plane, the
/// source of truth for the cell it occupies, and the selection flag the
/// engine maintains.
#[derive(PartialEq, Eq, Structural, Copy, Clone, Debug)]
pub struct Unit {
    pub pos: WorldPos,
    pub selected: bool,
}

impl Unit {
    /// A fresh, unselected unit at the given position.
    pub fn new(pos: WorldPos) -> (result: Unit)
        ensures
            result == (Unit { pos, selected: false }),
    {
        Unit { pos, selected: false }
    }
}

/// The single selection-ring overlay of a world session. Its position
/// mirrors the selected unit's position, and it is visible exactly while
/// some unit is selected.
#[derive(PartialEq, Eq, Structural, Copy, Clone, Default, Debug)]
pub struct Selection {
    pub pos: WorldPos,
    pub visible: bool,
}

/// The starting cells of a fresh world's units.
pub open spec fn starting_cells() -> Seq<HexCoord> {
    seq![HexCoord { q: 0, r: 0 }, HexCoord { q: 1, r: 2 }]
}

/// The units of a fresh world: one on each starting cell, unselected.
/// The world must be large enough to hold the starting cells.
pub fn initialise_units(world: &WorldData) -> (result: Vec<Unit>)
    requires
        world.radius >= 3,
    ensures
        result@.len() == starting_cells().len(),
        forall|i: int|
            0 <= i < result@.len() ==> result@[i] == (Unit {
                pos: starting_cells()[i].to_pixel_spec(),
                selected: false,
            }),
{
    let mut units: Vec<Unit> = Vec::new();
    let first = HexCoord { q: 0, r: 0 };
    let second = HexCoord { q: 1, r: 2 };
    units.push(Unit::new(first.to_pixel()));
    units.push(Unit::new(second.to_pixel()));
    units
}

/// Terrain kind of a map tile.
#[derive(PartialEq, Eq, Structural, Copy, Clone, Debug)]
pub enum TileType {
    Grass,
}

/// One map tile.
#[derive(PartialEq, Eq, Structural, Copy, Clone, Debug)]
pub struct Tile {
    pub tile_type: TileType,
}

impl Tile {
    pub fn grass() -> (result: Tile)
        ensures
            result.tile_type == TileType::Grass,
    {
        Self::new(TileType::Grass)
    }

    pub fn new(tile_type: TileType) -> (result: Tile)
        ensures
            result.tile_type == tile_type,
    {
        Tile { tile_type }
    }
}

} // verus!
