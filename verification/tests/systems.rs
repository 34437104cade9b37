use tedium::components::{Hidden, PointOfInterest};
use tedium::debug::{DebugConfig, DebugConfigKey, DebugConfigValue, UpdateDebugConfigEvent};
use tedium::events::{CyclePOIEvent, PlayerMoveDirection, PlayerMoveEvent, ToggleWallBlockEvent};
use tedium::field_of_view::{TileType, Visibility};
use tedium::player_animation::PlayerAnimationVariant;
use tedium::systems::arrow_keys::arrow_keys;
use tedium::systems::cycle_poi::cycle_point_of_interest;
use tedium::systems::keyboard_events::{keyboard_events_system, KeyboardState};
use tedium::systems::mouse_click::mouse_click;
use tedium::systems::pathfinding::{path_traversal, pathfinding, successors, Facing, TraversalStep};
use tedium::systems::player_move::translation_delta;
use tedium::systems::toggle_wall::{toggle_wall, WallAction};
use tedium::systems::visibility::{cell_overlay, unseen_tile_alpha, wall_tiles, CellOverlay};
use tedium::systems::{mouse_click as mouse_click_with_cursor, pathfinding as pathfinding_on_play_field};
use tedium::utils::{GridPosition, Translation};

fn g(x: i32, y: i32) -> GridPosition {
    GridPosition { x, y }
}

fn t(x: i32, y: i32) -> Translation {
    Translation { x, y, z: 2 }
}

fn no_keys() -> KeyboardState {
    KeyboardState {
        arrow_left_just_pressed: false,
        arrow_right_just_pressed: false,
        arrow_up_just_pressed: false,
        arrow_down_just_pressed: false,
        shift_left_pressed: false,
        shift_right_pressed: false,
        key_l_just_pressed: false,
        key_h_just_pressed: false,
    }
}

fn moved(d: PlayerMoveDirection) -> Option<PlayerMoveEvent> {
    Some(PlayerMoveEvent { direction: d })
}

fn config_change(k: DebugConfigKey) -> Option<UpdateDebugConfigEvent> {
    Some(UpdateDebugConfigEvent { config_key: k })
}

#[test]
fn arrow_keys_pick_one_direction() {
    assert_eq!(arrow_keys(&no_keys()), None);
    let mut k = no_keys();
    k.arrow_up_just_pressed = true;
    assert_eq!(arrow_keys(&k), moved(PlayerMoveDirection::Up));
    k.arrow_right_just_pressed = true;
    assert_eq!(arrow_keys(&k), moved(PlayerMoveDirection::Right));
    k.arrow_left_just_pressed = true;
    assert_eq!(arrow_keys(&k), moved(PlayerMoveDirection::Left));
    let mut k = no_keys();
    k.arrow_down_just_pressed = true;
    assert_eq!(arrow_keys(&k), moved(PlayerMoveDirection::Down));
}

#[test]
fn keyboard_events_move_and_change_the_light() {
    let mut k = no_keys();
    k.arrow_down_just_pressed = true;
    k.key_l_just_pressed = true;
    let e = keyboard_events_system(&k);
    assert_eq!(e.player_move, moved(PlayerMoveDirection::Down));
    assert_eq!(e.update_debug_config, config_change(DebugConfigKey::LightIntensityIncrease));
    k.shift_right_pressed = true;
    assert_eq!(
        keyboard_events_system(&k).update_debug_config,
        config_change(DebugConfigKey::LightIntensityDecrease)
    );
    let mut k = no_keys();
    k.key_h_just_pressed = true;
    assert_eq!(
        keyboard_events_system(&k).update_debug_config,
        config_change(DebugConfigKey::LightHeightIncrease)
    );
    k.shift_left_pressed = true;
    assert_eq!(
        keyboard_events_system(&k).update_debug_config,
        config_change(DebugConfigKey::LightHeightDecrease)
    );
    k.key_l_just_pressed = true;
    assert_eq!(
        keyboard_events_system(&k).update_debug_config,
        config_change(DebugConfigKey::LightIntensityDecrease)
    );
    assert_eq!(keyboard_events_system(&no_keys()).player_move, None);
    assert_eq!(keyboard_events_system(&no_keys()).update_debug_config, None);
}

#[test]
fn keyboard_events_and_arrow_keys_agree_on_moves() {
    for bits in 0..16u32 {
        let mut k = no_keys();
        k.arrow_left_just_pressed = bits & 1 != 0;
        k.arrow_right_just_pressed = bits & 2 != 0;
        k.arrow_up_just_pressed = bits & 4 != 0;
        k.arrow_down_just_pressed = bits & 8 != 0;
        assert_eq!(arrow_keys(&k), keyboard_events_system(&k).player_move);
    }
}

#[test]
fn left_click_cycles_points_of_interest() {
    assert_eq!(mouse_click(true), Some(CyclePOIEvent));
    assert_eq!(mouse_click(false), None);
}

#[test]
fn clicks_toggle_walls_and_cycle() {
    let e = mouse_click_with_cursor(true, Some(Translation { x: 20, y: 33, z: 1 }), false);
    assert_eq!(e.toggle_wall, Some(ToggleWallBlockEvent { translation: t(24, 40) }));
    assert_eq!(e.cycle_point_of_interest, None);
    let e = mouse_click_with_cursor(true, None, true);
    assert_eq!(e.toggle_wall, None);
    assert_eq!(e.cycle_point_of_interest, Some(CyclePOIEvent));
    let e = mouse_click_with_cursor(false, Some(Translation { x: 20, y: 33, z: 1 }), false);
    assert_eq!(e.toggle_wall, None);
}

fn pois(active: &[bool]) -> Vec<PointOfInterest> {
    active.iter().map(|a| PointOfInterest { active: *a }).collect()
}

#[test]
fn cycling_moves_the_active_point_of_interest() {
    let mut p = pois(&[false, true, false]);
    cycle_point_of_interest(&vec![CyclePOIEvent], false, &mut p);
    assert_eq!(p, pois(&[false, false, true]));
    cycle_point_of_interest(&Vec::new(), true, &mut p);
    assert_eq!(p, pois(&[true, false, false]));
    cycle_point_of_interest(&vec![CyclePOIEvent, CyclePOIEvent], true, &mut p);
    assert_eq!(p, pois(&[true, false, false]));
    cycle_point_of_interest(&Vec::new(), false, &mut p);
    assert_eq!(p, pois(&[true, false, false]));
}

#[test]
fn cycling_with_none_active_changes_nothing() {
    let mut p = pois(&[false, false]);
    cycle_point_of_interest(&vec![CyclePOIEvent], true, &mut p);
    assert_eq!(p, pois(&[false, false]));
    let mut empty: Vec<PointOfInterest> = Vec::new();
    cycle_point_of_interest(&vec![CyclePOIEvent], true, &mut empty);
    assert!(empty.is_empty());
}

#[test]
fn cycling_acts_on_the_first_active_one() {
    let mut p = pois(&[true, false, true, false]);
    cycle_point_of_interest(&vec![CyclePOIEvent], false, &mut p);
    assert_eq!(p, pois(&[false, true, true, false]));
    let mut one = pois(&[true]);
    cycle_point_of_interest(&vec![CyclePOIEvent], false, &mut one);
    assert_eq!(one, pois(&[true]));
}

#[test]
fn toggle_wall_removes_or_adds() {
    let blocks = vec![t(8, 8), t(40, 8)];
    let events = vec![
        ToggleWallBlockEvent { translation: t(40, 8) },
        ToggleWallBlockEvent { translation: t(43, 2) },
        ToggleWallBlockEvent { translation: t(24, 8) },
    ];
    assert_eq!(
        toggle_wall(&events, &blocks),
        vec![WallAction::Despawn(1), WallAction::Despawn(1), WallAction::Spawn(t(24, 8))]
    );
}

fn apply(blocks: &mut Vec<Translation>, action: WallAction) {
    match action {
        WallAction::Despawn(j) => {
            blocks.remove(j);
        }
        WallAction::Spawn(p) => blocks.push(p),
    }
}

#[test]
fn toggling_twice_restores_the_walls() {
    let start = vec![t(8, 8), t(40, 8)];
    for p in [t(8, 8), t(24, 24)] {
        let e = vec![ToggleWallBlockEvent { translation: p }];
        let mut blocks = start.clone();
        let a = toggle_wall(&e, &blocks)[0];
        apply(&mut blocks, a);
        let b = toggle_wall(&e, &blocks)[0];
        apply(&mut blocks, b);
        let mut cells: Vec<(i32, i32)> = blocks.iter().map(|b| (b.x / 16, b.y / 16)).collect();
        cells.sort();
        assert_eq!(cells, vec![(0, 0), (2, 0)]);
    }
}

#[test]
fn successors_in_order_and_filtered() {
    let walls = vec![g(1, 2)];
    assert_eq!(successors(&g(1, 1), &walls, 0, 32), vec![g(1, 0), g(0, 1), g(2, 1)]);
    assert_eq!(successors(&g(0, 0), &Vec::new(), 0, 32), vec![g(0, 1), g(1, 0)]);
}

fn check_route(path: &[GridPosition], walls: &[GridPosition]) {
    for w in path.windows(2) {
        let (a, b) = (w[0], w[1]);
        assert_eq!((a.x - b.x).abs() + (a.y - b.y).abs(), 1);
        assert!(!walls.contains(&b));
    }
}

#[test]
fn pathfinding_finds_a_shortest_route() {
    assert_eq!(pathfinding(g(3, 3), g(3, 3), &Vec::new()), Some(vec![g(3, 3)]));
    let straight = pathfinding(g(0, 0), g(3, 0), &Vec::new()).unwrap();
    assert_eq!(straight, vec![g(0, 0), g(1, 0), g(2, 0), g(3, 0)]);
    let walls = vec![g(1, 0), g(1, 1)];
    let around = pathfinding(g(0, 0), g(2, 0), &walls).unwrap();
    assert_eq!(around.len(), 7);
    assert_eq!(around[0], g(0, 0));
    assert_eq!(around[6], g(2, 0));
    check_route(&around, &walls);
}

#[test]
fn pathfinding_fails_when_walled_off() {
    let walls = vec![g(4, 5), g(6, 5), g(5, 4), g(5, 6)];
    assert_eq!(pathfinding(g(0, 0), g(5, 5), &walls), None);
    // a goal off the grid cannot be reached
    assert_eq!(pathfinding(g(0, 0), g(32, 0), &Vec::new()), None);
    // a goal that is a wall cannot be stepped on
    assert_eq!(pathfinding(g(0, 0), g(4, 5), &walls), None);
}

#[test]
fn pathfinding_on_the_play_field_counts_from_one() {
    assert_eq!(pathfinding_on_play_field(g(1, 1), g(1, 3), &Vec::new()).unwrap().len(), 3);
    assert_eq!(pathfinding_on_play_field(g(1, 1), g(0, 1), &Vec::new()), None);
    let p = pathfinding_on_play_field(g(32, 32), g(30, 32), &vec![g(31, 32)]).unwrap();
    assert_eq!(p.len(), 5);
    check_route(&p, &[g(31, 32)]);
}

#[test]
fn path_traversal_walks_and_faces() {
    let here = g(5, 5);
    assert_eq!(
        path_traversal(here, Some(g(6, 5)), PlayerAnimationVariant::Idle),
        TraversalStep {
            transition: Some(PlayerAnimationVariant::WalkRight),
            facing: Facing::Right,
            follows_path: true
        }
    );
    assert_eq!(
        path_traversal(here, Some(g(4, 5)), PlayerAnimationVariant::Idle).facing,
        Facing::Left
    );
    assert_eq!(
        path_traversal(here, Some(g(5, 6)), PlayerAnimationVariant::WalkLeft).transition,
        Some(PlayerAnimationVariant::WalkUp)
    );
    assert_eq!(
        path_traversal(here, Some(g(5, 4)), PlayerAnimationVariant::Idle).transition,
        Some(PlayerAnimationVariant::WalkDown)
    );
    // a jump keeps the animation, and a kept left walk still faces left
    assert_eq!(
        path_traversal(here, Some(g(7, 7)), PlayerAnimationVariant::WalkLeft),
        TraversalStep {
            transition: Some(PlayerAnimationVariant::WalkLeft),
            facing: Facing::Left,
            follows_path: true
        }
    );
}

#[test]
fn path_traversal_goes_idle_at_the_end() {
    assert_eq!(
        path_traversal(g(1, 1), None, PlayerAnimationVariant::WalkUp),
        TraversalStep {
            transition: Some(PlayerAnimationVariant::Idle),
            facing: Facing::Unchanged,
            follows_path: false
        }
    );
    assert_eq!(path_traversal(g(1, 1), None, PlayerAnimationVariant::Idle).transition, None);
}

#[test]
fn moves_are_one_cell() {
    assert_eq!(translation_delta(PlayerMoveDirection::Up), Translation { x: 0, y: 16, z: 0 });
    assert_eq!(translation_delta(PlayerMoveDirection::Down), Translation { x: 0, y: -16, z: 0 });
    assert_eq!(translation_delta(PlayerMoveDirection::Left), Translation { x: -16, y: 0, z: 0 });
    assert_eq!(translation_delta(PlayerMoveDirection::Right), Translation { x: 16, y: 0, z: 0 });
}

#[test]
fn wall_tiles_mark_the_walls_on_the_field() {
    let walls = vec![g(0, 0), g(3, 1), g(31, 31), g(32, 0), g(-1, 4), g(3, 1)];
    let tiles = wall_tiles(&walls);
    assert_eq!(tiles.len(), 1024);
    let opaque: Vec<usize> =
        (0..1024).filter(|i| tiles[*i] == TileType::Opaque).collect();
    assert_eq!(opaque, vec![0, 35, 1023]);
    assert!(wall_tiles(&Vec::new()).iter().all(|t| *t == TileType::Transparent));
}

fn light(intensity: i32, height: i32) -> DebugConfig {
    DebugConfig {
        light_height: DebugConfigValue { min: -100, max: 100, value: height },
        light_intensity: DebugConfigValue { min: -100, max: 100, value: intensity },
    }
}

#[test]
fn unseen_tiles_darkness_in_integer_division() {
    assert_eq!(unseen_tile_alpha(&light(8, 2)), 1);
    assert_eq!(unseen_tile_alpha(&light(20, 2)), -1);
    assert_eq!(unseen_tile_alpha(&light(-7, 2)), 1);
    assert_eq!(unseen_tile_alpha(&light(-25, 2)), 3);
    // a negative divisor: the quotient is still rounded towards zero
    assert_eq!(unseen_tile_alpha(&light(7, -10)), 4);
    assert_eq!(unseen_tile_alpha(&light(-7, -10)), -2);
}

#[test]
fn toggle_wall_with_no_blocks_spawns_even_off_the_grid() {
    let events = vec![ToggleWallBlockEvent { translation: t(-40, 24) }];
    let blocks: Vec<Translation> = Vec::new();
    assert_eq!(toggle_wall(&events, &blocks), vec![WallAction::Spawn(t(-40, 24))]);
}

#[test]
fn pathfinding_takes_the_shortest_path_that_the_search_meets_first() {
    let walls: Vec<GridPosition> = Vec::new();
    assert_eq!(pathfinding(g(0, 0), g(1, 1), &walls), Some(vec![g(0, 0), g(0, 1), g(1, 1)]));
    assert_eq!(pathfinding_on_play_field(g(1, 1), g(2, 2), &walls), Some(vec![g(1, 1), g(1, 2), g(2, 2)]));
}

#[test]
fn overlay_marks_seen_and_unseen_cells() {
    let mut v = Visibility::new(false, 8);
    v.observer = g(1, 1);
    v.add_observer();
    v.mark_visible(g(2, 3));
    assert_eq!(cell_overlay(&v, &g(2, 3)), CellOverlay { seen_at: Some(5), hidden: Hidden { visibility: 4 } });
    assert_eq!(cell_overlay(&v, &g(1, 1)), CellOverlay { seen_at: Some(0), hidden: Hidden { visibility: 4 } });
    assert_eq!(cell_overlay(&v, &g(9, 9)), CellOverlay { seen_at: None, hidden: Hidden { visibility: 0 } });
}
