use tedium::field_of_view_2::{TileType as TileType2, Visibility as ColumnVisibility, World};
use tedium::utils::GridPosition;
use tedium::visibility::{TileType, Visibility};

fn g(x: i32, y: i32) -> GridPosition {
    GridPosition { x, y }
}

fn world() -> World {
    // 2 columns, 3 rows, indexed column by column in the early take
    World {
        tiles: "_o__o_".chars().map(|c| TileType2::from(&c)).collect(),
        width: 2,
        height: 3,
    }
}

#[test]
fn tile_types_from_chars() {
    assert_eq!(TileType::from(&'o'), TileType::Opaque);
    assert_eq!(TileType::from(&'_'), TileType::Transparent);
    assert_eq!(TileType2::from(&'o'), TileType2::Opaque);
    assert_eq!(TileType2::from(&'_'), TileType2::Transparent);
}

#[test]
fn trivially_visible_tiles() {
    let w = world();
    let v = Visibility::new(&w, false, 3);
    assert!(v.is_tile_visible(&g(0, 0), &g(0, 0)));
    assert!(!v.is_tile_visible(&g(0, 0), &g(1, 2)));
    // one of the two tiles may lie outside
    assert!(!v.is_tile_visible(&g(0, 0), &g(9, 9)));
    let omniscient = Visibility::new(&w, true, 3);
    assert!(omniscient.is_tile_visible(&g(0, 0), &g(1, 2)));
    let one = World { tiles: vec![TileType2::Transparent], width: 1, height: 1 };
    let v = Visibility::new(&one, false, 1);
    assert!(v.is_tile_visible(&g(0, 0), &g(5, 5)));
}

#[test]
fn early_take_indexes_column_by_column() {
    let w = world();
    let v = Visibility::new(&w, false, 3);
    assert_eq!(v.grid_coord_to_idx(&g(1, 0)), 2);
    assert_eq!(v.grid_coord_to_idx(&g(0, 2)), 2);
    assert_eq!(v.get_tile_type(&g(0, 1)), TileType2::Opaque);
    assert_eq!(v.get_tile_type(&g(1, 2)), TileType2::Opaque);
    assert_eq!(v.get_tile_type(&g(0, 0)), TileType2::Transparent);
    assert!(v.is_in_bounds(&g(1, 2)));
    assert!(!v.is_in_bounds(&g(2, 0)));
    assert!(!v.is_in_bounds(&g(0, 3)));
}

#[test]
fn early_take_records_seen_tiles() {
    let w = world();
    let mut v = Visibility::new(&w, false, 3);
    assert_eq!(v.observer(), g(0, 0));
    assert_eq!(v.max_visible_distance(), 3);
    v.mark_visible(g(1, 1));
    v.mark_visible(g(1, 1));
    let seen = v.visible_tiles();
    assert_eq!(seen, vec![g(1, 1)]);
    v.mark_visible(g(0, 2));
    let mut seen: Vec<(i32, i32)> = v.visible_tiles().iter().map(|p| (p.x, p.y)).collect();
    seen.sort();
    assert_eq!(seen, vec![(0, 2), (1, 1)]);
}

#[test]
fn column_scan_ends_only_right_of_the_world() {
    let w = world();
    let mut v = ColumnVisibility::new(false, 8);
    v.calculate_vis(&w, g(3, 0));
    assert_eq!(v.observer, g(0, 0));
}
