use tedium::field_of_view::{scan_action, Octant, Pivot, ScanAction, TileType, Visibility, World};
use tedium::utils::{GridPosition, Translation};

const ALL_PIVOTS: [Pivot; 5] = [
    Pivot::_Center,
    Pivot::TopRight,
    Pivot::BottomRight,
    Pivot::BottomLeft,
    Pivot::TopLeft,
];

const ALL_OCTANTS: [Octant; 8] = [
    Octant::NorthOfEast,
    Octant::EastOfNorth,
    Octant::WestOfNorth,
    Octant::NorthOfWest,
    Octant::SouthOfWest,
    Octant::WestOfSouth,
    Octant::EastOfSouth,
    Octant::SouthOfEast,
];

fn g(x: i32, y: i32) -> GridPosition {
    GridPosition { x, y }
}

#[test]
fn tile_type_from_char_and_back() {
    assert_eq!(TileType::from(&'o'), TileType::Opaque);
    assert_eq!(TileType::from(&'_'), TileType::Transparent);
    assert_eq!(TileType::Opaque.to_string(), "o");
    assert_eq!(TileType::Transparent.to_string(), "_");
}

#[test]
fn flips_mirror_the_pivot() {
    assert_eq!(Pivot::TopRight.flip_x(), Pivot::TopLeft);
    assert_eq!(Pivot::TopRight.flip_y(), Pivot::BottomRight);
    assert_eq!(Pivot::BottomLeft.flip_x(), Pivot::BottomRight);
    assert_eq!(Pivot::_Center.flip_x(), Pivot::_Center);
    for p in ALL_PIVOTS {
        assert_eq!(p.flip_x().flip_x(), p);
        assert_eq!(p.flip_y().flip_y(), p);
        assert_eq!(p.flip_x().flip_y(), p.flip_y().flip_x());
    }
}

#[test]
fn abs_coords_moves_half_a_cell() {
    let tile = g(2, 3);
    assert_eq!(Pivot::_Center.abs_coords(&tile), Translation { x: 24, y: 40, z: 2 });
    assert_eq!(Pivot::TopRight.abs_coords(&tile), Translation { x: 32, y: 48, z: 2 });
    assert_eq!(Pivot::BottomRight.abs_coords(&tile), Translation { x: 32, y: 32, z: 2 });
    assert_eq!(Pivot::BottomLeft.abs_coords(&tile), Translation { x: 16, y: 32, z: 2 });
    assert_eq!(Pivot::TopLeft.abs_coords(&tile), Translation { x: 16, y: 48, z: 2 });
}

#[test]
fn adjusted_pivots_per_octant() {
    let p = Pivot::BottomRight;
    assert_eq!(Octant::NorthOfEast.get_adjusted_pivot(p), Pivot::BottomRight);
    assert_eq!(Octant::EastOfNorth.get_adjusted_pivot(p), Pivot::TopLeft);
    assert_eq!(Octant::WestOfNorth.get_adjusted_pivot(p), Pivot::TopRight);
    assert_eq!(Octant::NorthOfWest.get_adjusted_pivot(p), Pivot::BottomLeft);
    assert_eq!(Octant::SouthOfWest.get_adjusted_pivot(p), Pivot::TopLeft);
    assert_eq!(Octant::WestOfSouth.get_adjusted_pivot(p), Pivot::BottomRight);
    assert_eq!(Octant::EastOfSouth.get_adjusted_pivot(p), Pivot::BottomLeft);
    assert_eq!(Octant::SouthOfEast.get_adjusted_pivot(p), Pivot::TopRight);
    for o in ALL_OCTANTS {
        assert_eq!(o.get_adjusted_pivot(Pivot::_Center), Pivot::_Center);
    }
}

#[test]
fn scan_line_points_per_octant() {
    let obs = g(10, 20);
    assert_eq!(Octant::NorthOfEast.scan_line_point(obs, 3, 1), g(13, 21));
    assert_eq!(Octant::EastOfNorth.scan_line_point(obs, 3, 1), g(11, 23));
    assert_eq!(Octant::WestOfNorth.scan_line_point(obs, 3, 1), g(9, 23));
    assert_eq!(Octant::NorthOfWest.scan_line_point(obs, 3, 1), g(7, 21));
    assert_eq!(Octant::SouthOfWest.scan_line_point(obs, 3, 1), g(7, 19));
    assert_eq!(Octant::WestOfSouth.scan_line_point(obs, 3, 1), g(9, 17));
    assert_eq!(Octant::EastOfSouth.scan_line_point(obs, 3, 1), g(11, 17));
    assert_eq!(Octant::SouthOfEast.scan_line_point(obs, 3, 1), g(13, 19));
}

#[test]
fn next_tile_on_scanline_advances_the_offset() {
    let obs = g(10, 20);
    for o in ALL_OCTANTS {
        for depth in 1..4 {
            for k in 0..4 {
                let p = o.scan_line_point(obs, depth, k);
                assert_eq!(o.get_next_tile_on_scanline(&p), o.scan_line_point(obs, depth, k + 1));
            }
        }
    }
    assert_eq!(Octant::NorthOfEast.get_next_tile_on_scanline(&g(0, 0)), g(0, 1));
    assert_eq!(Octant::WestOfSouth.get_next_tile_on_scanline(&g(0, 0)), g(-1, 0));
}

#[test]
fn slope_parts_rise_over_run() {
    let obs = g(1, 1);
    // tile two cells right, one up: bottom right corner is 2.5 cells right, 0.5 up
    assert_eq!(Octant::NorthOfEast.slope_parts(&obs, &g(3, 2), Pivot::BottomRight), (8, 40));
    // in EastOfNorth the pivot is mirrored on both axes and the ratio is inverted
    assert_eq!(Octant::EastOfNorth.slope_parts(&obs, &g(2, 3), Pivot::BottomRight), (8, 40));
    assert_eq!(Octant::SouthOfWest.slope_parts(&obs, &g(-1, 0), Pivot::_Center), (-16, -32));
}

#[test]
fn scan_action_decisions() {
    let t = Some(TileType::Transparent);
    let o = Some(TileType::Opaque);
    assert_eq!(scan_action(true, t, o), ScanAction::Begin);
    assert_eq!(scan_action(false, t, o), ScanAction::ScanBeyondUpToHere);
    assert_eq!(scan_action(false, o, t), ScanAction::RaiseMinSlope);
    assert_eq!(scan_action(false, t, t), ScanAction::Continue);
    assert_eq!(scan_action(false, o, o), ScanAction::Continue);
    assert_eq!(scan_action(false, None, o), ScanAction::Continue);
}

fn small_world() -> World {
    // 3 columns, 2 rows
    World {
        tiles: vec![
            TileType::Transparent,
            TileType::Opaque,
            TileType::Transparent,
            TileType::Opaque,
            TileType::Transparent,
            TileType::Transparent,
        ],
        width: 3,
        height: 2,
    }
}

#[test]
fn get_tile_type_reads_row_major_and_walls_off_the_outside() {
    let v = Visibility::new(false, 8);
    let w = small_world();
    assert_eq!(v.get_tile_type(&w, &g(1, 0)), Some(TileType::Opaque));
    assert_eq!(v.get_tile_type(&w, &g(0, 1)), Some(TileType::Opaque));
    assert_eq!(v.get_tile_type(&w, &g(2, 1)), Some(TileType::Transparent));
    assert_eq!(v.get_tile_type(&w, &g(3, 0)), Some(TileType::Opaque));
    assert_eq!(v.get_tile_type(&w, &g(-1, 0)), Some(TileType::Opaque));
}

fn sorted(m: &[(GridPosition, i32)]) -> Vec<(i32, i32, i32)> {
    let mut v: Vec<(i32, i32, i32)> = m.iter().map(|(p, d)| (p.x, p.y, *d)).collect();
    v.sort();
    v
}

#[test]
fn visible_tiles_accumulate_until_drained() {
    let mut v = Visibility::new(false, 3);
    assert!(sorted(&v.visible_tiles()).is_empty());
    v.observer = g(2, 2);
    v.add_observer();
    v.mark_visible(g(3, 4));
    v.mark_visible(g(0, 2));
    assert_eq!(sorted(&v.visible_tiles()), vec![(0, 2, 4), (2, 2, 0), (3, 4, 5)]);
    // marking again after the observer moved records the new distance
    v.observer = g(3, 3);
    v.mark_visible(g(3, 4));
    assert_eq!(sorted(&v.visible_tiles()), vec![(0, 2, 4), (2, 2, 0), (3, 4, 1)]);
    v.drain_visible_tiles();
    assert!(sorted(&v.visible_tiles()).is_empty());
    v.add_observer();
    assert_eq!(sorted(&v.visible_tiles()), vec![(3, 3, 0)]);
}

#[test]
fn out_of_range_at_the_visible_distance() {
    let mut v = Visibility::new(false, 3);
    v.observer = g(0, 0);
    assert!(!v.is_out_of_range(&g(2, 2)));
    assert!(v.is_out_of_range(&g(3, 0)));
    assert!(v.is_out_of_range(&g(2, 3)));
}

#[test]
fn observer_follows_the_last_player_with_a_known_cell() {
    let mut v = Visibility::new(false, 8);
    v.observe_players(&vec![]);
    assert_eq!(v.observer, g(0, 0));
    v.observe_players(&vec![Some(g(3, 4)), None, Some(g(5, 6)), None]);
    assert_eq!(v.observer, g(5, 6));
    v.observe_players(&vec![None, None]);
    assert_eq!(v.observer, g(5, 6));
}

#[test]
fn seen_distance_reads_the_record() {
    let mut v = Visibility::new(false, 8);
    v.observer = g(2, 2);
    v.mark_visible(g(3, 4));
    assert_eq!(v.seen_distance(&g(3, 4)), Some(5));
    assert_eq!(v.seen_distance(&g(2, 2)), None);
}
