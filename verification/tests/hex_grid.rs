use wizciv::hex_grid::{HexCoord, WorldPos};

#[test]
fn boundary_construction_succeeds_inside() {
    let h = HexCoord::new(3, 0, 3);
    assert_eq!(h, Some(HexCoord { q: 3, r: 0 }));
    assert!(HexCoord::new(0, 0, 3).is_some());
    assert!(HexCoord::new(-3, 0, 3).is_some());
    assert!(HexCoord::new(0, -3, 3).is_some());
    assert!(HexCoord::new(3, -3, 3).is_some());
    assert!(HexCoord::new(30, 0, 30).is_some());
}

#[test]
fn boundary_construction_fails_outside() {
    assert!(HexCoord::new(4, 0, 3).is_none());
    assert!(HexCoord::new(0, 4, 3).is_none());
    assert!(HexCoord::new(-4, 0, 3).is_none());
    assert!(HexCoord::new(2, 2, 3).is_none());
    assert!(HexCoord::new(-2, -2, 3).is_none());
    assert!(HexCoord::new(31, 0, 30).is_none());
}

#[test]
fn adjacency_six_neighbours() {
    let c = HexCoord { q: 0, r: 0 };
    let neighbours = [(1, 0), (-1, 0), (0, 1), (0, -1), (1, -1), (-1, 1)];
    for &(dq, dr) in neighbours.iter() {
        let n = HexCoord { q: dq, r: dr };
        assert!(c.is_adjacent(&n));
        assert!(n.is_adjacent(&c));
    }
}

#[test]
fn adjacency_rejects_self_and_far_cells() {
    let c = HexCoord { q: 0, r: 0 };
    assert!(!c.is_adjacent(&c));
    assert!(!c.is_adjacent(&HexCoord { q: 2, r: 0 }));
    assert!(!c.is_adjacent(&HexCoord { q: 1, r: 1 }));
    assert!(!c.is_adjacent(&HexCoord { q: -1, r: -1 }));
    let d = HexCoord { q: 2, r: -1 };
    assert_eq!(c.is_adjacent(&d), d.is_adjacent(&c));
}

#[test]
fn to_pixel_exact_centres() {
    assert_eq!(HexCoord { q: 0, r: 0 }.to_pixel(), WorldPos { x: 0, y: 0 });
    assert_eq!(HexCoord { q: 1, r: 0 }.to_pixel(), WorldPos { x: 1500, y: 500 });
    assert_eq!(HexCoord { q: 0, r: 1 }.to_pixel(), WorldPos { x: 0, y: 1000 });
    assert_eq!(HexCoord { q: 2, r: -1 }.to_pixel(), WorldPos { x: 3000, y: 0 });
    assert_eq!(HexCoord { q: -1, r: -1 }.to_pixel(), WorldPos { x: -1500, y: -1500 });
}

#[test]
fn pixel_round_trip_every_cell_of_small_world() {
    let radius: i16 = 3;
    for q in -3i16..=3 {
        for r in -3i16..=3 {
            if let Some(h) = HexCoord::new(q, r, radius) {
                assert_eq!(HexCoord::from_pixel(h.to_pixel(), radius), Some(h));
            }
        }
    }
}

#[test]
fn pixel_round_trip_every_cell_of_shipped_world() {
    let radius: i16 = 30;
    for q in -30i16..=30 {
        for r in -30i16..=30 {
            if let Some(h) = HexCoord::new(q, r, radius) {
                assert_eq!(HexCoord::from_pixel(h.to_pixel(), radius), Some(h));
            }
        }
    }
}

#[test]
fn from_pixel_rounds_to_nearest_cell() {
    // a point off the exact centre still resolves to the nearest cell
    assert_eq!(
        HexCoord::from_pixel(WorldPos { x: 1400, y: 550 }, 3),
        Some(HexCoord { q: 1, r: 0 })
    );
    assert_eq!(
        HexCoord::from_pixel(WorldPos { x: -100, y: 80 }, 3),
        Some(HexCoord { q: 0, r: 0 })
    );
}

#[test]
fn from_pixel_rejects_points_outside_world() {
    // the centre of (2, -1) is a valid point for radius 2 but not radius 1
    let p = HexCoord { q: 2, r: -1 }.to_pixel();
    assert_eq!(HexCoord::from_pixel(p, 2), Some(HexCoord { q: 2, r: -1 }));
    assert_eq!(HexCoord::from_pixel(p, 1), None);
    // far away from every cell of a small world
    assert_eq!(HexCoord::from_pixel(WorldPos { x: 100_000, y: 0 }, 3), None);
    assert_eq!(HexCoord::from_pixel(WorldPos { x: 0, y: -100_000 }, 3), None);
}
