//! Core state and logic of a tile-based roguelike world: a dense grid map,
//! a player-controlled avatar and simple pursuing soldiers, turn-driven
//! simulation rounds with snapshot isolation, deferred side effects, and a
//! ray-cast field of view.

pub mod actor;
pub mod actors;
pub mod fps_counter;
pub mod game_controller;
pub mod item;
pub mod map;
pub mod map_builder;
pub mod message;
pub mod outside;
pub mod sprite_info;
pub mod text_renderer;
pub mod tile;
pub mod visibility;

use vstd::prelude::*;
use crate::actor::{Actor, ActorType};
use crate::item::Item;
use crate::map::TileMap;
use crate::map_builder::MapBuilder;
use crate::message::Message;
use crate::tile::{FloorType, Tile, TileType};

verus! {

/// The width of any given map in number of tiles.
pub const MAP_WIDTH: i32 = 56;

/// The height of any given map in number of tiles.
pub const MAP_HEIGHT: i32 = 32;

/// The range of directions of possible movement.
#[derive(Clone, Copy, Debug, PartialEq, Eq, Structural)]
pub enum MovementDirection {
    /// Indicates that the subject should move to the north.
    Up,
    /// Indicates that the subject should move to the south.
    Down,
    /// Indicates that the subject should move to the west.
    Left,
    /// Indicates that the subject should move to the east.
    Right,
    /// Indicates that the subject should move to the north-west.
    UpLeft,
    /// Indicates that the subject should move to the north-east.
    UpRight,
    /// Indicates that the subject should move to the south-west.
    DownLeft,
    /// Indicates that the subject should move to the south-east.
    DownRight,
}

/// The position that a subject at `start` reaches by moving `spaces` tiles in
/// direction `dir`; a negative count leaves the subject where it stands.
pub open spec fn spec_moved_position(start: [i32; 2], dir: MovementDirection, spaces: int) -> (
    int,
    int,
) {
    if spaces < 0 {
        (start[0] as int, start[1] as int)
    } else {
        match dir {
            MovementDirection::Up => (start[0] as int, start[1] - spaces),
            MovementDirection::Down => (start[0] as int, start[1] + spaces),
            MovementDirection::Left => (start[0] - spaces, start[1] as int),
            MovementDirection::Right => (start[0] + spaces, start[1] as int),
            MovementDirection::UpLeft => (start[0] - spaces, start[1] - spaces),
            MovementDirection::UpRight => (start[0] + spaces, start[1] - spaces),
            MovementDirection::DownLeft => (start[0] - spaces, start[1] + spaces),
            MovementDirection::DownRight => (start[0] + spaces, start[1] + spaces),
        }
    }
}

/// Helper function for mapping a starting position to a new position given a
/// direction and number of spaces.
pub fn map_direction_to_position(
    starting_position: [i32; 2],
    dir: &MovementDirection,
    spaces: i32,
) -> (r: [i32; 2])
    requires
        i32::MIN <= spec_moved_position(starting_position, *dir, spaces as int).0 <= i32::MAX,
        i32::MIN <= spec_moved_position(starting_position, *dir, spaces as int).1 <= i32::MAX,
    ensures
        r == spec_moved_position_i32(starting_position, *dir, spaces as int),
{
    // a negative number of spaces asks for no movement at all
    if spaces < 0 {
        return starting_position;
    }
    let sx = starting_position[0] as i64;
    let sy = starting_position[1] as i64;
    let sp = spaces as i64;
    let (tx, ty): (i64, i64) = match *dir {
        MovementDirection::Up => (sx, sy - sp),
        MovementDirection::Down => (sx, sy + sp),
        MovementDirection::Left => (sx - sp, sy),
        MovementDirection::Right => (sx + sp, sy),
        MovementDirection::UpLeft => (sx - sp, sy - sp),
        MovementDirection::UpRight => (sx + sp, sy - sp),
        MovementDirection::DownLeft => (sx - sp, sy + sp),
        MovementDirection::DownRight => (sx + sp, sy + sp),
    };
    [tx as i32, ty as i32]
}

/// The target cell reached by a one-or-more-space move, as grid coordinates.
pub open spec fn spec_moved_position_i32(
    start: [i32; 2],
    dir: MovementDirection,
    spaces: int,
) -> [i32; 2] {
    [
        spec_moved_position(start, dir, spaces).0 as i32,
        spec_moved_position(start, dir, spaces).1 as i32,
    ]
}

/// Whether the move that computed `target` stays within the machine limits of
/// grid coordinates.
pub open spec fn moved_position_fits(start: [i32; 2], dir: MovementDirection, spaces: int) -> bool {
    &&& i32::MIN <= spec_moved_position(start, dir, spaces).0 <= i32::MAX
    &&& i32::MIN <= spec_moved_position(start, dir, spaces).1 <= i32::MAX
}

/// A key of the fixed input set that the game reacts to, named after the
/// physical key it is bound to.
#[derive(Clone, Copy, Debug, PartialEq, Eq, Structural)]
pub enum GameKey {
    /// Requests spawning a soldier.
    F1,
    /// Toggles the message log.
    Tab,
    /// Waits in place for one round.
    NumPad0,
    /// Moves to the south-west.
    NumPad1,
    /// Moves to the south.
    NumPad2,
    /// Moves to the south-east.
    NumPad3,
    /// Moves to the west.
    NumPad4,
    /// Moves to the east.
    NumPad6,
    /// Moves to the north-west.
    NumPad7,
    /// Moves to the north.
    NumPad8,
    /// Moves to the north-east.
    NumPad9,
}

/// One already-decoded event handed to the controller by the windowing
/// layer: either a press of one of the game's keys, or anything else.
#[derive(Clone, Copy, Debug, PartialEq, Eq, Structural)]
pub enum InputEvent {
    /// One of the game's keys was pressed.
    Press(GameKey),
    /// Any event the game does not react to.
    Other,
}

/// The possible results of an attempt by a Movable implementor to
/// move in a particular direction.
#[derive(Clone, Copy, Debug, PartialEq, Eq)]
pub enum MovementResult {
    /// The target cell blocks movement outright.
    Wall,
    /// The target cell lies off the grid; it is carried in the result.
    MapEdge([i32; 2]),
    /// The target cell is a fluid floor, passable but distinguished.
    Fluid,
    /// The target cell is ordinary walkable floor.
    Clear,
}

/// How the map classifies an attempt to step onto `target`: off-grid cells
/// are the map's edge, walls and emptiness block, fluid floors are flagged,
/// and any other floor is clear.
pub open spec fn spec_movement_result(tiles: Seq<Tile>, target: [i32; 2]) -> MovementResult {
    match crate::map::spec_lookup(tiles, target) {
        Some(t) => match t.tile_type {
            TileType::Wall(_, _) => MovementResult::Wall,
            TileType::Empty => MovementResult::Wall,
            TileType::Floor(f) => if crate::tile::is_fluid_floor(t.tile_type) {
                MovementResult::Fluid
            } else {
                MovementResult::Clear
            },
        },
        None => MovementResult::MapEdge(target),
    }
}

/// Implemented by structs capable of being moved in a specified direction.
pub trait Movable: Sized {
    /// The grid position that this trait's contracts speak of.
    spec fn spec_position(&self) -> [i32; 2];

    /// Returns the current position of the implementor.
    fn current_position(&self) -> (r: [i32; 2])
        ensures
            r == self.spec_position(),
    ;

    /// Moves the implementor one space in the specified direction.
    fn move_toward(&mut self, dir: &MovementDirection)
        requires
            moved_position_fits(old(self).spec_position(), *dir, 1),
        ensures
            final(self).spec_position() == spec_moved_position_i32(
                old(self).spec_position(),
                *dir,
                1,
            ),
    ;

    /// Sets the X coordinate of the implementor.
    fn set_x(&mut self, x: i32)
        ensures
            final(self).spec_position() == [x, old(self).spec_position()[1]],
    ;

    /// Sets the Y coordinate of the implementor.
    fn set_y(&mut self, y: i32)
        ensures
            final(self).spec_position() == [old(self).spec_position()[0], y],
    ;
}

/// Classifies the move that `subject` would make `spaces` tiles along `dir`,
/// without performing it: collision checking is the caller's job.
pub fn try_move<M: Movable>(
    subject: &M,
    map: &TileMap,
    dir: &MovementDirection,
    spaces: i32,
) -> (r: MovementResult)
    requires
        moved_position_fits(subject.spec_position(), *dir, spaces as int),
    ensures
        r == spec_movement_result(
            map@,
            spec_moved_position_i32(subject.spec_position(), *dir, spaces as int),
        ),
{
    let check_position = map_direction_to_position(subject.current_position(), dir, spaces);
    if let Some(tile) = map.get_at(check_position) {
        match tile.tile_type {
            TileType::Wall(_, _) | TileType::Empty => MovementResult::Wall,
            TileType::Floor(floor_type) => match floor_type {
                FloorType::Water | FloorType::Mud => MovementResult::Fluid,
                _ => MovementResult::Clear,
            },
        }
    } else {
        MovementResult::MapEdge(check_position)
    }
}

/// A tile type on which a new actor may be placed: anything that is neither
/// a wall nor a fluid floor.
pub open spec fn spec_spawnable(t: TileType) -> bool {
    !crate::tile::is_wall(t) && !crate::tile::is_fluid_floor(t)
}

/// Whether some cell of the grid can host a newly placed actor.
pub open spec fn exists_spawnable(tiles: Seq<Tile>) -> bool {
    exists|i: int| 0 <= i < tiles.len() && spec_spawnable((#[trigger] tiles[i]).tile_type)
}

/// Stores the current state of the game.
pub struct GameState {
    /// The ID of the actor instance that represents the current player.
    pub player_id: u128,

    /// Describes the space in which the game's elements take place.
    pub map: TileMap,

    /// The Actors (enemies, NPCs, etc.) currently in the map.
    pub actors: Vec<Actor>,

    /// The items currently present in the map.
    pub items: Vec<Item>,

    /// A queue of messages stored for display to the player.
    pub messages: Vec<Message>,

    /// Indicates whether or not to show the message queue to the player.
    pub show_messages: bool,
}

impl GameState {
    /// Creates and returns a new instance of the GameState struct: the map
    /// is generated from the collaborator's wall markers, and the player is
    /// placed on a spawnable tile whenever the map has one.
    pub fn new(map_builder: &mut MapBuilder, markers: &Vec<bool>) -> (r: GameState)
        ensures
            final(map_builder).seed() == old(map_builder).seed(),
            final(map_builder).current_offset() == old(map_builder).current_offset(),
            r.map@.len() == crate::map::grid_size(),
            forall|i: int|
                0 <= i < crate::map::grid_size() ==> (#[trigger] r.map@[i]) == (Tile {
                    tile_type: crate::map_builder::spec_fixed_tile_type(markers@, i),
                    position: crate::map::index_position(i),
                }),
            r.actors@.len() == 1,
            r.actors@[0].spec_type() == ActorType::Player,
            r.actors@[0].spec_id() == r.player_id,
            r.actors@[0].spec_status() is None,
            crate::actor::spec_ticks_of(r.actors@[0]) is None,
            r.actors@[0].spec_messages().len() == 1,
            r.actors@[0].spec_messages().last().contents@ == "Welcome!"@,
            exists_spawnable(r.map@) ==> (crate::map::spec_lookup(
                r.map@,
                r.actors@[0].spec_position(),
            ) matches Some(t) && spec_spawnable(t.tile_type)),
            !exists_spawnable(r.map@) ==> r.actors@[0].spec_position() == [0i32, 0i32],
            r.items@ =~= Seq::<Item>::empty(),
            r.messages@ =~= Seq::<Message>::empty(),
            r.show_messages == true,
    {
        let map = map_builder.create(markers);
        let mut player = crate::actor::create(&ActorType::Player);
        let spawn = find_spawn_position(&map);
        player.set_x(spawn[0]);
        player.set_y(spawn[1]);
        proof {
            assert(player.spec_position() =~= spawn);
        }
        let player_id = player.id();
        let mut actors: Vec<Actor> = Vec::new();
        actors.push(player);
        GameState {
            player_id,
            map,
            actors,
            items: Vec::new(),
            messages: Vec::new(),
            show_messages: true,
        }
    }
}

/// Picks a tile for a newly placed actor: a bounded number of random draws,
/// then a deterministic scan; the origin only when no tile of the map can
/// host an actor at all.
fn find_spawn_position(map: &TileMap) -> (r: [i32; 2])
    requires
        map@.len() == crate::map::grid_size(),
    ensures
        exists_spawnable(map@) ==> (crate::map::spec_lookup(map@, r) matches Some(t)
            && spec_spawnable(t.tile_type)),
        !exists_spawnable(map@) ==> r == [0i32, 0i32],
{
    // random draws first, so that spawn points vary from game to game
    let mut attempts: usize = 0;
    while attempts < 1792
        invariant
            map@.len() == crate::map::grid_size(),
        decreases 1792 - attempts,
    {
        let x = (rand::random::<u32>() % (MAP_WIDTH as u32)) as i32;
        let y = (rand::random::<u32>() % (MAP_HEIGHT as u32)) as i32;
        if let Some(tile) = map.get_at([x, y]) {
            if is_spawnable_tile(&tile.tile_type) {
                proof {
                    let gi = crate::map::grid_index(x as int, y as int);
                    assert(0 <= gi < map@.len() && spec_spawnable(map@[gi].tile_type));
                }
                return [x, y];
            }
        }
        attempts = attempts + 1;
    }
    // deterministic fallback: the first spawnable cell in column-major order
    let mut x: i32 = 0;
    while x < MAP_WIDTH
        invariant
            0 <= x <= MAP_WIDTH,
            map@.len() == crate::map::grid_size(),
            forall|i: int|
                0 <= i < map@.len() && spec_spawnable(
                    (#[trigger] map@[i]).tile_type,
                ) ==> i % (MAP_WIDTH as int) >= x as int,
        decreases MAP_WIDTH - x,
    {
        let mut y: i32 = 0;
        while y < MAP_HEIGHT
            invariant
                0 <= x < MAP_WIDTH,
                0 <= y <= MAP_HEIGHT,
                map@.len() == crate::map::grid_size(),
                forall|i: int|
                    0 <= i < map@.len() && spec_spawnable(
                        (#[trigger] map@[i]).tile_type,
                    ) ==> i % (MAP_WIDTH as int) > x as int || (i % (MAP_WIDTH as int) == x as int
                        && i / (MAP_WIDTH as int) >= y as int),
            decreases MAP_HEIGHT - y,
        {
            if let Some(tile) = map.get_at([x, y]) {
                if is_spawnable_tile(&tile.tile_type) {
                    proof {
                        let gi = crate::map::grid_index(x as int, y as int);
                        assert(0 <= gi < map@.len() && spec_spawnable(map@[gi].tile_type));
                    }
                    return [x, y];
                }
            }
            proof {
                lemma_cell_not_spawnable_step(map@, x as int, y as int);
            }
            y = y + 1;
        }
        x = x + 1;
    }
    proof {
        assert forall|i: int| 0 <= i < map@.len() implies !spec_spawnable(
            (#[trigger] map@[i]).tile_type,
        ) by {
            assert(i % (MAP_WIDTH as int) < MAP_WIDTH as int) by (nonlinear_arith)
                requires
                    0 <= i,
                    MAP_WIDTH as int > 0,
            ;
        }
    }
    [0, 0]
}

/// Rules a cell's current tile type in or out as a spawn point.
fn is_spawnable_tile(t: &TileType) -> (r: bool)
    ensures
        r == spec_spawnable(*t),
{
    match *t {
        TileType::Wall(_, _) => false,
        TileType::Floor(FloorType::Water) | TileType::Floor(FloorType::Mud) => false,
        _ => true,
    }
}

/// After ruling out cell `(x, y)`, every spawnable cell still lies at a
/// strictly later column-major scan position.
proof fn lemma_cell_not_spawnable_step(tiles: Seq<Tile>, x: int, y: int)
    requires
        tiles.len() == crate::map::grid_size(),
        0 <= x < MAP_WIDTH as int,
        0 <= y < MAP_HEIGHT as int,
        !spec_spawnable(tiles[crate::map::grid_index(x, y)].tile_type),
        forall|i: int|
            0 <= i < tiles.len() && spec_spawnable((#[trigger] tiles[i]).tile_type) ==> i % (
            MAP_WIDTH as int) > x || (i % (MAP_WIDTH as int) == x && i / (MAP_WIDTH as int) >= y),
    ensures
        forall|i: int|
            0 <= i < tiles.len() && spec_spawnable((#[trigger] tiles[i]).tile_type) ==> i % (
            MAP_WIDTH as int) > x || (i % (MAP_WIDTH as int) == x && i / (MAP_WIDTH as int) >= y
                + 1),
{
    let w = MAP_WIDTH as int;
    assert forall|i: int|
        0 <= i < tiles.len() && spec_spawnable((#[trigger] tiles[i]).tile_type) implies i % w > x
        || (i % w == x && i / w >= y + 1) by {
        if i % w == x && i / w == y {
            assert(i == (i / w) * w + i % w) by (nonlinear_arith)
                requires
                    w > 0,
            ;
            assert(i == crate::map::grid_index(x, y));
            assert(false);
        }
    }
}

} // verus!
