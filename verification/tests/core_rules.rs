//! Movement classification, edge wrapping, map construction and field of
//! view, checked on concrete values.

use finniko::actors::player::Player;
use finniko::map::TileMap;
use finniko::map_builder::MapBuilder;
use finniko::tile::{FloorType, TileType, WallOrientation, WallType};
use finniko::visibility::{classify_visibility, ray_visible, Visibility};
use finniko::{
    map_direction_to_position, try_move, GameState, MovementDirection, MovementResult, MAP_HEIGHT,
    MAP_WIDTH,
};

fn player_at(x: i32, y: i32) -> Player {
    Player { position: [x, y], id: 7, status: None, messages: Vec::new(), ticks: None }
}

#[test]
fn movement_classification_wall() {
    let mut map = TileMap::new();
    map.set_at([5, 5], TileType::Wall(WallOrientation::Top, WallType::Stone));
    let unit = player_at(4, 5);
    let result = try_move(&unit, &map, &MovementDirection::Right, 1);
    assert!(matches!(result, MovementResult::Wall));
}

#[test]
fn movement_classification_clear() {
    let mut map = TileMap::new();
    map.set_at([5, 5], TileType::Wall(WallOrientation::Top, WallType::Stone));
    // (5, 4) is floor, so a unit at (4, 4) moving right is clear
    let unit = player_at(4, 4);
    let result = try_move(&unit, &map, &MovementDirection::Right, 1);
    assert!(matches!(result, MovementResult::Clear));
}

#[test]
fn movement_classification_empty_blocks() {
    let mut map = TileMap::new();
    map.set_at([5, 5], TileType::Empty);
    let unit = player_at(4, 5);
    let result = try_move(&unit, &map, &MovementDirection::Right, 1);
    assert!(matches!(result, MovementResult::Wall));
}

#[test]
fn movement_classification_fluid() {
    let mut map = TileMap::new();
    map.set_at([5, 5], TileType::Floor(FloorType::Water));
    let unit = player_at(4, 5);
    assert!(matches!(try_move(&unit, &map, &MovementDirection::Right, 1), MovementResult::Fluid));
    map.set_at([5, 5], TileType::Floor(FloorType::Mud));
    assert!(matches!(try_move(&unit, &map, &MovementDirection::Right, 1), MovementResult::Fluid));
}

#[test]
fn movement_negative_spaces_stays_put() {
    let start = [9, 9];
    let moved = map_direction_to_position(start, &MovementDirection::Up, -3);
    assert_eq!(moved, start);
}

#[test]
fn movement_diagonal_steps() {
    let moved = map_direction_to_position([4, 4], &MovementDirection::UpRight, 2);
    assert_eq!(moved, [6, 2]);
    let moved = map_direction_to_position([4, 4], &MovementDirection::DownLeft, 1);
    assert_eq!(moved, [3, 5]);
}

#[test]
fn edge_wrap_left_edge() {
    let map = TileMap::new();
    let mut unit = player_at(0, 3);
    let result = try_move(&unit, &map, &MovementDirection::Left, 1);
    match result {
        MovementResult::MapEdge(edge) => {
            assert_eq!(edge, [-1, 3]);
            unit.move_over_edge(&map, edge);
            assert_eq!(unit.position, [MAP_WIDTH - 1, 3]);
            let offset = Player::get_new_map_offset_from_edge(&map, edge);
            assert_eq!(offset, [-1, 0]);
        },
        _ => panic!("expected the map's edge"),
    }
}

#[test]
fn edge_wrap_bottom_right_corner() {
    let map = TileMap::new();
    let mut unit = player_at(MAP_WIDTH - 1, MAP_HEIGHT - 1);
    let result = try_move(&unit, &map, &MovementDirection::DownRight, 1);
    match result {
        MovementResult::MapEdge(edge) => {
            assert_eq!(edge, [MAP_WIDTH, MAP_HEIGHT]);
            unit.move_over_edge(&map, edge);
            assert_eq!(unit.position, [0, 0]);
            let offset = Player::get_new_map_offset_from_edge(&map, edge);
            assert_eq!(offset, [1, 1]);
        },
        _ => panic!("expected the map's edge"),
    }
}

#[test]
fn map_lookup_in_and_out_of_bounds() {
    let map = TileMap::new();
    assert!(map.get_at([0, 0]).is_some());
    assert!(map.get_at([MAP_WIDTH - 1, MAP_HEIGHT - 1]).is_some());
    assert!(map.get_at([-1, 0]).is_none());
    assert!(map.get_at([0, -1]).is_none());
    assert!(map.get_at([MAP_WIDTH, 0]).is_none());
    assert!(map.get_at([0, MAP_HEIGHT]).is_none());
    let tile = map.get_at([12, 7]).unwrap();
    assert_eq!(tile.position, [12, 7]);
    assert!(matches!(tile.tile_type, TileType::Floor(FloorType::Dirt)));
}

#[test]
fn visibility_tiers_by_distance() {
    // obstruction-free terrain: the tier degrades from full through half to
    // invisible exactly at the configured thresholds
    let map = TileMap::new();
    let origin = [0, 0];
    let expectations = [
        (0, Visibility::Full),
        (1, Visibility::Full),
        (4, Visibility::Full),
        (5, Visibility::Half),
        (9, Visibility::Half),
        (10, Visibility::Invisible),
        (20, Visibility::Invisible),
    ];
    for (x, expected) in expectations {
        let (unobscured, distance) = ray_visible(&map, origin, [x, 0]);
        assert!(unobscured);
        let tier = classify_visibility(unobscured, distance);
        assert_eq!(tier, expected, "target at x = {}", x);
    }
}

#[test]
fn visibility_distance_is_step_count() {
    let map = TileMap::new();
    assert_eq!(ray_visible(&map, [0, 0], [0, 0]), (true, 0));
    assert_eq!(ray_visible(&map, [0, 0], [3, 0]), (true, 2));
    assert_eq!(ray_visible(&map, [0, 0], [0, 4]), (true, 3));
}

#[test]
fn visibility_obstruction_blocks_regardless_of_distance() {
    let mut map = TileMap::new();
    map.set_at([2, 0], TileType::Wall(WallOrientation::Face, WallType::Brick));
    let (unobscured, _) = ray_visible(&map, [0, 0], [4, 0]);
    assert!(!unobscured);
    assert_eq!(classify_visibility(unobscured, 4), Visibility::Invisible);
    // even an adjacent cell behind the wall stays invisible
    let (unobscured, _) = ray_visible(&map, [0, 0], [3, 0]);
    assert!(!unobscured);
}

#[test]
fn visibility_target_wall_itself_is_seen() {
    // the target cell is excluded from the walk, so a wall itself renders
    let mut map = TileMap::new();
    map.set_at([3, 0], TileType::Wall(WallOrientation::Face, WallType::Brick));
    let (unobscured, distance) = ray_visible(&map, [0, 0], [3, 0]);
    assert!(unobscured);
    assert_eq!(distance, 2);
}

#[test]
fn map_builder_markers_become_walls() {
    let builder = MapBuilder::with_seed(11);
    let mut markers = vec![false; (MAP_WIDTH * MAP_HEIGHT) as usize];
    let at = |x: i32, y: i32| (y * MAP_WIDTH + x) as usize;
    markers[at(3, 3)] = true;
    markers[at(4, 3)] = true;
    markers[at(4, 4)] = true;
    let map = builder.create(&markers);
    // a wall top with floor below becomes a face
    match map.get_at([3, 3]).unwrap().tile_type {
        TileType::Wall(WallOrientation::Face, WallType::Stone) => {},
        _ => panic!("expected a stone wall face at (3, 3)"),
    }
    // a wall top with wall below keeps its top orientation
    match map.get_at([4, 3]).unwrap().tile_type {
        TileType::Wall(WallOrientation::Top, WallType::Stone) => {},
        _ => panic!("expected a stone wall top at (4, 3)"),
    }
    // unmarked cells are dirt floor
    match map.get_at([10, 10]).unwrap().tile_type {
        TileType::Floor(FloorType::Dirt) => {},
        _ => panic!("expected dirt floor at (10, 10)"),
    }
}

#[test]
fn map_builder_bottom_row_wall_keeps_top() {
    let builder = MapBuilder::with_seed(11);
    let mut markers = vec![false; (MAP_WIDTH * MAP_HEIGHT) as usize];
    let at = |x: i32, y: i32| (y * MAP_WIDTH + x) as usize;
    markers[at(5, MAP_HEIGHT - 1)] = true;
    let map = builder.create(&markers);
    match map.get_at([5, MAP_HEIGHT - 1]).unwrap().tile_type {
        TileType::Wall(WallOrientation::Top, WallType::Stone) => {},
        _ => panic!("expected a wall top on the bottom row"),
    }
}

#[test]
fn map_builder_offsets_accumulate() {
    let mut builder = MapBuilder::with_seed(5);
    assert_eq!(builder.get_current_offset(), [0, 0]);
    let markers: Vec<bool> = Vec::new();
    builder.create_offset([1, 0], &markers);
    assert_eq!(builder.get_current_offset(), [1, 0]);
    builder.create_offset([-1, 1], &markers);
    assert_eq!(builder.get_current_offset(), [0, 1]);
    assert_eq!(builder.get_seed(), 5);
}

#[test]
fn map_builder_sample_points_shift_with_offset() {
    let mut builder = MapBuilder::with_seed(5);
    let origin_points = builder.sample_points();
    assert_eq!(origin_points.len(), (MAP_WIDTH * MAP_HEIGHT) as usize);
    assert_eq!(origin_points[0], (0, 0));
    assert_eq!(origin_points[1], (1, 0));
    assert_eq!(origin_points[MAP_WIDTH as usize], (0, 1));
    builder.advance_offset([1, 0]);
    let shifted = builder.sample_points();
    // one map span per axis: adjacent offsets sample adjoining windows
    assert_eq!(shifted[0], ((MAP_WIDTH - 1) as i64, 0));
}

#[test]
fn game_state_player_spawns_on_open_ground() {
    let mut builder = MapBuilder::with_seed(3);
    // every cell walled except one
    let mut markers = vec![true; (MAP_WIDTH * MAP_HEIGHT) as usize];
    let open = (10 * MAP_WIDTH + 20) as usize;
    markers[open] = false;
    let state = GameState::new(&mut builder, &markers);
    assert_eq!(state.actors.len(), 1);
    let position = match &state.actors[0] {
        finniko::actor::Actor::Player(p) => p.position,
        _ => panic!("expected the player actor"),
    };
    assert_eq!(position, [20, 10]);
    assert!(state.show_messages);
    assert!(state.messages.is_empty());
}

#[test]
fn rasterized_line_shape_shows_through_rays() {
    // the rasterized crate documents the line from (0,1) toward (6,4) as
    // passing (2,2) but not (2,3); a wall on the line obstructs the ray
    // while a wall beside it does not
    let mut map = TileMap::new();
    map.set_at([2, 2], TileType::Wall(WallOrientation::Top, WallType::Stone));
    let (unobscured, distance) = ray_visible(&map, [0, 1], [6, 4]);
    assert!(!unobscured);
    assert_eq!(distance, 2);
    let mut map = TileMap::new();
    map.set_at([2, 3], TileType::Wall(WallOrientation::Top, WallType::Stone));
    let (unobscured, distance) = ray_visible(&map, [0, 1], [6, 4]);
    assert!(unobscured);
    assert_eq!(distance, 5);
}

#[test]
fn set_at_outside_the_grid_changes_nothing() {
    let mut map = TileMap::new();
    map.set_at([-1, 0], TileType::Empty);
    map.set_at([MAP_WIDTH, 0], TileType::Empty);
    assert!(matches!(map.get_at([0, 0]).unwrap().tile_type, TileType::Floor(FloorType::Dirt)));
    assert!(matches!(
        map.get_at([MAP_WIDTH - 1, 0]).unwrap().tile_type,
        TileType::Floor(FloorType::Dirt)
    ));
}

#[test]
fn map_reports_fixed_dimensions() {
    let map = TileMap::new();
    assert_eq!(map.width(), MAP_WIDTH as usize);
    assert_eq!(map.height(), MAP_HEIGHT as usize);
}

#[test]
fn all_wall_map_spawns_player_at_origin() {
    let mut builder = MapBuilder::with_seed(3);
    let markers = vec![true; (MAP_WIDTH * MAP_HEIGHT) as usize];
    let state = GameState::new(&mut builder, &markers);
    let position = match &state.actors[0] {
        finniko::actor::Actor::Player(p) => p.position,
        _ => panic!("expected the player actor"),
    };
    assert_eq!(position, [0, 0]);
}

#[test]
fn fresh_tile_defaults() {
    let tile = finniko::tile::Tile::new();
    assert_eq!(tile.position, [0, 0]);
    assert!(matches!(tile.tile_type, TileType::Floor(FloorType::Dirt)));
    let sprite = tile.sprite_components();
    assert_eq!(sprite.key, finniko::sprite_info::SpriteKey::Ground);
    assert_eq!(sprite.color, [525, 408, 290, 1000]);
}
