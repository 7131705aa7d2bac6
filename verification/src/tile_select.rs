use vstd::prelude::*;

verus! {

use crate::hex_grid::{HexCoord, WorldPos};
use crate::wizciv::{MouseState, Selection, Unit, WorldData};

/// The cell a unit currently occupies, recomputed from its live position:
/// the position, never a cached cell, is the source of truth.
pub open spec fn unit_hex(u: Unit, radius: int) -> Option<HexCoord> {
    HexCoord::from_pixel_spec(u.pos, radius)
}

/// Whether a left release picks the unit: the hovered cell is present and
/// is exactly the cell the unit occupies.
pub open spec fn picks(u: Unit, hovered: Option<HexCoord>, radius: int) -> bool {
    match hovered {
        Some(h) => unit_hex(u, radius) == Some(h),
        None => false,
    }
}

/// One unit after the select transition: its flag is rewritten to whether
/// the left release picks it; its position is untouched.
pub open spec fn select_unit(u: Unit, hovered: Option<HexCoord>, radius: int) -> Unit {
    Unit { pos: u.pos, selected: picks(u, hovered, radius) }
}

/// The unit list after the select transition. Every flag is rewritten:
/// set exactly on the units occupying the hovered cell, and cleared
/// everywhere when the cursor is over no valid cell.
pub open spec fn select_units(units: Seq<Unit>, hovered: Option<HexCoord>, radius: int) -> Seq<
    Unit,
> {
    units.map(|i: int, u: Unit| select_unit(u, hovered, radius))
}

/// Index of the last unit the select transition picks, if any. With two
/// units on one cell the later one wins, matching the engine's iteration
/// order.
pub open spec fn last_picked(units: Seq<Unit>, hovered: Option<HexCoord>, radius: int) -> Option<
    int,
>
    decreases units.len(),
{
    if units.len() == 0 {
        None
    } else if picks(units.last(), hovered, radius) {
        Some(units.len() - 1)
    } else {
        last_picked(units.drop_last(), hovered, radius)
    }
}

/// The highlight after the select transition: moved onto the picked unit
/// and shown when one exists, hidden in place otherwise.
pub open spec fn select_highlight(
    units: Seq<Unit>,
    hovered: Option<HexCoord>,
    radius: int,
    highlight: Selection,
) -> Selection {
    match last_picked(units, hovered, radius) {
        Some(i) => Selection { pos: units[i].pos, visible: true },
        None => Selection { pos: highlight.pos, visible: false },
    }
}

/// Whether a right release over `target` moves the unit: it is selected
/// and occupies a cell adjacent to the target.
pub open spec fn moves(u: Unit, target: HexCoord, radius: int) -> bool {
    &&& u.selected
    &&& match unit_hex(u, radius) {
        Some(uh) => HexCoord::adjacent(target, uh),
        None => false,
    }
}

/// One unit after the move transition: a selected unit adjacent to the
/// target lands on the target cell's centre, deselected; every other unit
/// is untouched (an illegal move is silently ignored).
pub open spec fn move_unit(u: Unit, target: HexCoord, radius: int) -> Unit {
    if moves(u, target, radius) {
        Unit { pos: target.to_pixel_spec(), selected: false }
    } else {
        u
    }
}

/// The unit list after the move transition.
pub open spec fn move_units(units: Seq<Unit>, target: HexCoord, radius: int) -> Seq<Unit> {
    units.map(|i: int, u: Unit| move_unit(u, target, radius))
}

/// Whether the move transition moves any unit.
pub open spec fn any_moved(units: Seq<Unit>, target: HexCoord, radius: int) -> bool {
    exists|i: int| 0 <= i < units.len() && moves(units[i], target, radius)
}

/// The highlight after the move transition: hidden in place once a move
/// happened (movement always ends the selection), untouched otherwise.
pub open spec fn move_highlight(
    units: Seq<Unit>,
    target: HexCoord,
    radius: int,
    highlight: Selection,
) -> Selection {
    if any_moved(units, target, radius) {
        Selection { pos: highlight.pos, visible: false }
    } else {
        highlight
    }
}

/// The unit list after one full tick: the select transition on a left
/// release, then the move transition on a right release over a valid
/// cell, in that fixed order.
pub open spec fn tick_units(units: Seq<Unit>, mouse: MouseState, radius: int) -> Seq<Unit> {
    let after_select = if mouse.left_state.clicked() {
        select_units(units, mouse.hex, radius)
    } else {
        units
    };
    match mouse.hex {
        Some(h) => if mouse.right_state.clicked() {
            move_units(after_select, h, radius)
        } else {
            after_select
        },
        None => after_select,
    }
}

/// The highlight after one full tick, mirroring `tick_units`.
pub open spec fn tick_highlight(
    units: Seq<Unit>,
    mouse: MouseState,
    radius: int,
    highlight: Selection,
) -> Selection {
    let after_select_units = if mouse.left_state.clicked() {
        select_units(units, mouse.hex, radius)
    } else {
        units
    };
    let after_select = if mouse.left_state.clicked() {
        select_highlight(units, mouse.hex, radius, highlight)
    } else {
        highlight
    };
    match mouse.hex {
        Some(h) => if mouse.right_state.clicked() {
            move_highlight(after_select_units, h, radius, after_select)
        } else {
            after_select
        },
        None => after_select,
    }
}

/// At most one unit of the list is selected.
pub open spec fn at_most_one_selected(units: Seq<Unit>) -> bool {
    forall|i: int, j: int|
        0 <= i < units.len() && 0 <= j < units.len() && units[i].selected && units[j].selected
            ==> i == j
}

/// The units occupy pairwise distinct cells: no valid cell is shared by
/// two of them.
pub open spec fn distinct_cells(units: Seq<Unit>, radius: int) -> bool {
    forall|i: int, j: int|
        0 <= i < units.len() && 0 <= j < units.len() && i != j && unit_hex(units[i], radius)
            is Some ==> unit_hex(units[i], radius) != unit_hex(units[j], radius)
}

proof fn lemma_last_picked(units: Seq<Unit>, hovered: Option<HexCoord>, radius: int)
    ensures
        match last_picked(units, hovered, radius) {
            Some(i) => 0 <= i < units.len() && picks(units[i], hovered, radius),
            None => forall|j: int| 0 <= j < units.len() ==> !picks(units[j], hovered, radius),
        },
    decreases units.len(),
{
    if units.len() == 0 {
    } else if picks(units.last(), hovered, radius) {
    } else {
        lemma_last_picked(units.drop_last(), hovered, radius);
        assert(forall|j: int|
            0 <= j < units.len() - 1 ==> units.drop_last()[j] == units[j]);
    }
}

/// The select transition leaves at most one unit selected whenever the
/// units sit on pairwise distinct cells: two selected units would both
/// occupy the hovered cell.
proof fn lemma_select_exclusive(units: Seq<Unit>, hovered: Option<HexCoord>, radius: int)
    requires
        distinct_cells(units, radius),
    ensures
        at_most_one_selected(select_units(units, hovered, radius)),
{
    let s1 = select_units(units, hovered, radius);
    assert forall|i: int, j: int|
        0 <= i < s1.len() && 0 <= j < s1.len() && s1[i].selected && s1[j].selected implies i
        == j by {
        if i != j {
            assert(picks(units[i], hovered, radius));
            assert(picks(units[j], hovered, radius));
            assert(unit_hex(units[i], radius) is Some);
            assert(unit_hex(units[i], radius) == unit_hex(units[j], radius));
        }
    }
}

/// Selection exclusivity: after any left-release tick over units on
/// pairwise distinct cells, at most one unit is selected.
pub proof fn lemma_selection_exclusive(units: Seq<Unit>, mouse: MouseState, radius: int)
    requires
        mouse.left_state.clicked(),
        distinct_cells(units, radius),
    ensures
        at_most_one_selected(tick_units(units, mouse, radius)),
{
    let s1 = select_units(units, mouse.hex, radius);
    lemma_select_exclusive(units, mouse.hex, radius);
    match mouse.hex {
        Some(h) => {
            if mouse.right_state.clicked() {
                let s2 = move_units(s1, h, radius);
                assert forall|i: int, j: int|
                    0 <= i < s2.len() && 0 <= j < s2.len() && s2[i].selected
                        && s2[j].selected implies i == j by {
                    assert(s2[i] == move_unit(s1[i], h, radius));
                    assert(s2[j] == move_unit(s1[j], h, radius));
                    assert(s1[i].selected && s1[j].selected);
                }
            }
        },
        None => {},
    }
}

/// The cross-tick invariant of the engine: at most one unit is selected,
/// and the highlight is visible exactly while one is, sitting on its
/// position.
pub open spec fn engine_invariant(units: Seq<Unit>, highlight: Selection) -> bool {
    &&& at_most_one_selected(units)
    &&& highlight.visible == (exists|i: int| 0 <= i < units.len() && units[i].selected)
    &&& forall|i: int|
        0 <= i < units.len() && units[i].selected ==> highlight.pos == units[i].pos
}

/// One tick preserves the engine invariant, whatever the pointer did,
/// provided the units sit on pairwise distinct cells.
pub proof fn lemma_tick_preserves_engine_invariant(
    units: Seq<Unit>,
    mouse: MouseState,
    radius: int,
    highlight: Selection,
)
    requires
        distinct_cells(units, radius),
        engine_invariant(units, highlight),
    ensures
        engine_invariant(
            tick_units(units, mouse, radius),
            tick_highlight(units, mouse, radius, highlight),
        ),
{
    let s1 = if mouse.left_state.clicked() {
        select_units(units, mouse.hex, radius)
    } else {
        units
    };
    let h1 = if mouse.left_state.clicked() {
        select_highlight(units, mouse.hex, radius, highlight)
    } else {
        highlight
    };
    if mouse.left_state.clicked() {
        lemma_select_exclusive(units, mouse.hex, radius);
        lemma_last_picked(units, mouse.hex, radius);
        match last_picked(units, mouse.hex, radius) {
            Some(i) => {
                assert(s1[i].selected);
                assert forall|j: int|
                    0 <= j < s1.len() && s1[j].selected implies h1.pos == s1[j].pos by {
                    assert(picks(units[j], mouse.hex, radius));
                    assert(j == i);
                }
            },
            None => {
                assert(forall|j: int| 0 <= j < s1.len() ==> !s1[j].selected);
            },
        }
    }
    assert(engine_invariant(s1, h1));
    match mouse.hex {
        Some(h) => {
            if mouse.right_state.clicked() {
                let s2 = move_units(s1, h, radius);
                let h2 = move_highlight(s1, h, radius, h1);
                if mouse.left_state.clicked() {
                    // every unit the select transition left selected sits on
                    // the hovered cell itself, which is adjacent to no cell
                    // of its own
                    assert forall|i: int|
                        0 <= i < s1.len() implies !moves(s1[i], h, radius) by {
                        if s1[i].selected {
                            assert(picks(units[i], mouse.hex, radius));
                            assert(unit_hex(s1[i], radius) == Some(h));
                            assert(!HexCoord::adjacent(h, h));
                        }
                    }
                    assert(!any_moved(s1, h, radius));
                    assert(s2 =~= s1);
                    assert(h2 == h1);
                } else {
                    if any_moved(s1, h, radius) {
                        let k = choose|k: int|
                            0 <= k < s1.len() && moves(s1[k], h, radius);
                        assert forall|j: int|
                            0 <= j < s2.len() implies !s2[j].selected by {
                            assert(s2[j] == move_unit(s1[j], h, radius));
                            if !moves(s1[j], h, radius) && s1[j].selected {
                                assert(j == k);
                                assert(false);
                            }
                        }
                        assert(!h2.visible);
                    } else {
                        assert forall|j: int| 0 <= j < s2.len() implies s2[j] == s1[j] by {
                            assert(s2[j] == move_unit(s1[j], h, radius));
                        }
                        assert(s2 =~= s1);
                        assert(h2 == h1);
                    }
                }
                assert(engine_invariant(s2, h2));
            }
        },
        None => {},
    }
}

fn select_tick(
    units: &mut Vec<Unit>,
    highlight: &mut Selection,
    hovered: Option<HexCoord>,
    radius: i16,
)
    ensures
        final(units)@ == select_units(old(units)@, hovered, radius as int),
        *final(highlight) == select_highlight(
            old(units)@,
            hovered,
            radius as int,
            *old(highlight),
        ),
{
    let ghost orig = units@;
    let mut sel_pos: Option<WorldPos> = None;
    let mut idx: usize = 0;
    while idx < units.len()
        invariant
            idx <= orig.len(),
            units@.len() == orig.len(),
            forall|j: int| idx <= j < orig.len() ==> units@[j] == orig[j],
            forall|j: int|
                0 <= j < idx ==> units@[j] == select_unit(orig[j], hovered, radius as int),
            match last_picked(orig.take(idx as int), hovered, radius as int) {
                Some(i) => sel_pos == Some(orig[i].pos),
                None => sel_pos is None,
            },
        decreases orig.len() - idx,
    {
        let u = units[idx];
        let picked: bool = match hovered {
            Some(h) => match HexCoord::from_pixel(u.pos, radius) {
                Some(uh) => uh == h,
                None => false,
            },
            None => false,
        };
        units.set(idx, Unit { pos: u.pos, selected: picked });
        if picked {
            sel_pos = Some(u.pos);
        }
        proof {
            assert(picked == picks(orig[idx as int], hovered, radius as int));
            let pre = orig.take(idx as int);
            let post = orig.take(idx as int + 1);
            assert(post.drop_last() =~= pre);
            assert(post.last() == orig[idx as int]);
        }
        idx = idx + 1;
    }
    proof {
        assert(orig.take(orig.len() as int) =~= orig);
        assert(units@ =~= select_units(orig, hovered, radius as int));
    }
    match sel_pos {
        Some(p) => {
            highlight.pos = p;
            highlight.visible = true;
        },
        None => {
            highlight.visible = false;
        },
    }
}

fn move_tick(units: &mut Vec<Unit>, highlight: &mut Selection, target: HexCoord, radius: i16)
    ensures
        final(units)@ == move_units(old(units)@, target, radius as int),
        *final(highlight) == move_highlight(old(units)@, target, radius as int, *old(highlight)),
{
    let ghost orig = units@;
    let mut moved: bool = false;
    let mut idx: usize = 0;
    while idx < units.len()
        invariant
            idx <= orig.len(),
            units@.len() == orig.len(),
            forall|j: int| idx <= j < orig.len() ==> units@[j] == orig[j],
            forall|j: int|
                0 <= j < idx ==> units@[j] == move_unit(orig[j], target, radius as int),
            moved == exists|i: int| 0 <= i < idx && moves(orig[i], target, radius as int),
        decreases orig.len() - idx,
    {
        let u = units[idx];
        let ghost moved_before = moved;
        if u.selected {
            match HexCoord::from_pixel(u.pos, radius) {
                Some(uh) => {
                    if target.is_adjacent(&uh) {
                        units.set(idx, Unit { pos: target.to_pixel(), selected: false });
                        moved = true;
                    }
                },
                None => {},
            }
        }
        proof {
            if moves(orig[idx as int], target, radius as int) {
                assert(moved);
                assert(exists|i: int|
                    0 <= i < idx + 1 && moves(orig[i], target, radius as int)) by {
                    assert(moves(orig[idx as int], target, radius as int));
                }
            } else {
                assert(moved == moved_before);
                assert forall|i: int|
                    0 <= i < idx + 1 && moves(orig[i], target, radius as int) implies (
                exists|k: int| 0 <= k < idx && moves(orig[k], target, radius as int)) by {
                    assert(i != idx);
                }
            }
        }
        idx = idx + 1;
    }
    proof {
        assert(units@ =~= move_units(orig, target, radius as int));
    }
    if moved {
        highlight.visible = false;
    }
}

/// The selection engine: the sole writer of the units' `selected` flags
/// and of the highlight within a tick.
#[derive(Copy, Clone, Default, Debug)]
pub struct TileSelectSystem {}

impl TileSelectSystem {
    pub fn new() -> (result: TileSelectSystem) {
        TileSelectSystem {}
    }

    /// One tick of the selection state machine, run after the pointer
    /// update of the same tick.
    ///
    /// On a left release every unit's flag is rewritten to whether it
    /// occupies the hovered cell (all cleared when the cursor is over no
    /// valid cell), and the highlight lands shown on the picked unit or is
    /// hidden. Then, on a right release over a valid cell, every selected
    /// unit adjacent to that cell moves onto its centre and is deselected,
    /// hiding the highlight; a non-adjacent target is silently ignored.
    pub fn run(
        &self,
        mouse_state: &MouseState,
        world_data: &WorldData,
        units: &mut Vec<Unit>,
        highlight: &mut Selection,
    )
        ensures
            final(units)@ == tick_units(old(units)@, *mouse_state, world_data.radius as int),
            *final(highlight) == tick_highlight(
                old(units)@,
                *mouse_state,
                world_data.radius as int,
                *old(highlight),
            ),
    {
        if mouse_state.left_state.is_clicked() {
            select_tick(units, highlight, mouse_state.hex, world_data.radius);
        }
        match mouse_state.hex {
            Some(h) => {
                if mouse_state.right_state.is_clicked() {
                    move_tick(units, highlight, h, world_data.radius);
                }
            },
            None => {},
        }
    }
}

} // verus!
