use wizciv::hex_grid::{HexCoord, WorldPos};
use wizciv::mouse_hex::MouseHexSystem;
use wizciv::tile_select::TileSelectSystem;
use wizciv::wizciv::{ButtonState, MouseState, Selection, Unit, WorldData};

fn left_release_over(hex: Option<HexCoord>) -> MouseState {
    MouseState {
        hex,
        left_state: ButtonState { is_down: false, was_down: true },
        right_state: ButtonState { is_down: false, was_down: false },
    }
}

fn right_release_over(hex: Option<HexCoord>) -> MouseState {
    MouseState {
        hex,
        left_state: ButtonState { is_down: false, was_down: false },
        right_state: ButtonState { is_down: false, was_down: true },
    }
}

fn unit_at(q: i16, r: i16) -> Unit {
    Unit::new(HexCoord { q, r }.to_pixel())
}

#[test]
fn left_release_selects_unit_under_cursor() {
    let engine = TileSelectSystem::new();
    let world = WorldData { radius: 3 };
    let mut units = vec![unit_at(0, 0), unit_at(1, 2)];
    let mut highlight = Selection::default();
    let mouse = left_release_over(Some(HexCoord { q: 0, r: 0 }));
    engine.run(&mouse, &world, &mut units, &mut highlight);
    assert!(units[0].selected);
    assert!(!units[1].selected);
    assert!(highlight.visible);
    assert_eq!(highlight.pos, HexCoord { q: 0, r: 0 }.to_pixel());
}

#[test]
fn left_release_on_empty_cell_deselects_all() {
    let engine = TileSelectSystem::new();
    let world = WorldData { radius: 3 };
    let mut units = vec![unit_at(0, 0), unit_at(1, 2)];
    units[1].selected = true;
    let mut highlight = Selection { pos: units[1].pos, visible: true };
    let mouse = left_release_over(Some(HexCoord { q: 2, r: 0 }));
    engine.run(&mouse, &world, &mut units, &mut highlight);
    assert!(!units[0].selected);
    assert!(!units[1].selected);
    assert!(!highlight.visible);
}

#[test]
fn left_release_outside_world_deselects_all() {
    let engine = TileSelectSystem::new();
    let world = WorldData { radius: 3 };
    let mut units = vec![unit_at(0, 0), unit_at(1, 2)];
    units[0].selected = true;
    let mut highlight = Selection { pos: units[0].pos, visible: true };
    let mouse = left_release_over(None);
    engine.run(&mouse, &world, &mut units, &mut highlight);
    assert!(!units[0].selected);
    assert!(!units[1].selected);
    assert!(!highlight.visible);
}

#[test]
fn at_most_one_unit_selected_after_left_release() {
    let engine = TileSelectSystem::new();
    let world = WorldData { radius: 3 };
    let mut units = vec![unit_at(0, 0), unit_at(1, 0), unit_at(0, 1), unit_at(-2, 1)];
    units[3].selected = true;
    let mut highlight = Selection { pos: units[3].pos, visible: true };
    let mouse = left_release_over(Some(HexCoord { q: 1, r: 0 }));
    engine.run(&mouse, &world, &mut units, &mut highlight);
    let selected_count: usize = units.iter().filter(|u| u.selected).count();
    assert_eq!(selected_count, 1);
    assert!(units[1].selected);
}

#[test]
fn adjacent_move_relocates_and_deselects() {
    let engine = TileSelectSystem::new();
    let world = WorldData { radius: 3 };
    let mut units = vec![unit_at(0, 0)];
    units[0].selected = true;
    let mut highlight = Selection { pos: units[0].pos, visible: true };
    let mouse = right_release_over(Some(HexCoord { q: 1, r: 0 }));
    engine.run(&mouse, &world, &mut units, &mut highlight);
    assert_eq!(units[0].pos, HexCoord { q: 1, r: 0 }.to_pixel());
    assert!(!units[0].selected);
    assert!(!highlight.visible);
}

#[test]
fn non_adjacent_move_is_ignored() {
    let engine = TileSelectSystem::new();
    let world = WorldData { radius: 3 };
    let mut units = vec![unit_at(0, 0)];
    units[0].selected = true;
    let home = units[0].pos;
    let mut highlight = Selection { pos: home, visible: true };
    let mouse = right_release_over(Some(HexCoord { q: 2, r: 0 }));
    engine.run(&mouse, &world, &mut units, &mut highlight);
    assert_eq!(units[0].pos, home);
    assert!(units[0].selected);
    assert!(highlight.visible);
}

#[test]
fn right_release_without_selection_changes_nothing() {
    let engine = TileSelectSystem::new();
    let world = WorldData { radius: 3 };
    let mut units = vec![unit_at(0, 0)];
    let home = units[0].pos;
    let mut highlight = Selection::default();
    let mouse = right_release_over(Some(HexCoord { q: 1, r: 0 }));
    engine.run(&mouse, &world, &mut units, &mut highlight);
    assert_eq!(units[0].pos, home);
    assert!(!units[0].selected);
    assert!(!highlight.visible);
}

#[test]
fn select_then_move_scenario() {
    // world radius 3; unit A at (0, 0)
    let engine = TileSelectSystem::new();
    let world = WorldData { radius: 3 };
    let mut units = vec![unit_at(0, 0)];
    let mut highlight = Selection::default();

    // left release over (0, 0): A selected, highlight visible on A
    let mouse = left_release_over(Some(HexCoord { q: 0, r: 0 }));
    engine.run(&mouse, &world, &mut units, &mut highlight);
    assert!(units[0].selected);
    assert!(highlight.visible);
    assert_eq!(highlight.pos, HexCoord { q: 0, r: 0 }.to_pixel());

    // right release over the adjacent (1, -1): A moves there, deselected,
    // highlight hidden
    let mouse = right_release_over(Some(HexCoord { q: 1, r: -1 }));
    engine.run(&mouse, &world, &mut units, &mut highlight);
    assert_eq!(units[0].pos, HexCoord { q: 1, r: -1 }.to_pixel());
    assert!(!units[0].selected);
    assert!(!highlight.visible);
}

#[test]
fn two_units_on_one_cell_highlight_takes_the_later() {
    // the engine assumes one unit per cell but does not enforce it; with
    // two on one cell the highlight mirrors the later one
    let engine = TileSelectSystem::new();
    let world = WorldData { radius: 3 };
    let mut units = vec![unit_at(1, 0), unit_at(1, 0)];
    units[1].pos.x += 100;
    let mut highlight = Selection::default();
    let mouse = left_release_over(Some(HexCoord { q: 1, r: 0 }));
    engine.run(&mouse, &world, &mut units, &mut highlight);
    assert!(units[0].selected);
    assert!(units[1].selected);
    assert!(highlight.visible);
    assert_eq!(highlight.pos, units[1].pos);
}

#[test]
fn full_tick_pipeline_drives_selection() {
    // pointer update then selection, as the engine schedules them
    let pointer = MouseHexSystem::new();
    let engine = TileSelectSystem::new();
    let world = WorldData { radius: 3 };
    let mut mouse = MouseState::default();
    let mut units = vec![unit_at(0, 0), unit_at(1, 2)];
    let mut highlight = Selection::default();
    let cursor = WorldPos { x: 40, y: -30 };  // near the centre of (0, 0)

    // press the left button over (0, 0)
    pointer.run(&mut mouse, Some(cursor), true, false, &world);
    engine.run(&mouse, &world, &mut units, &mut highlight);
    assert!(!units[0].selected);

    // release it: the unit under the cursor is selected
    pointer.run(&mut mouse, Some(cursor), false, false, &world);
    engine.run(&mouse, &world, &mut units, &mut highlight);
    assert!(units[0].selected);
    assert!(!units[1].selected);
    assert!(highlight.visible);
}
