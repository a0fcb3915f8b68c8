//! The dense grid of tiles that makes up the virtual space of the game.

use vstd::prelude::*;
use crate::tile::{FloorType, Tile, TileType};
use crate::{MAP_HEIGHT, MAP_WIDTH};

verus! {

/// The number of tiles in a map's grid.
pub open spec fn grid_size() -> int {
    MAP_WIDTH as int * MAP_HEIGHT as int
}

/// Whether `(x, y)` lies within the fixed bounds of a map's grid.
pub open spec fn spec_in_bounds(x: int, y: int) -> bool {
    0 <= x < MAP_WIDTH as int && 0 <= y < MAP_HEIGHT as int
}

/// The index in row-major tile storage that cell `(x, y)` occupies.
pub open spec fn grid_index(x: int, y: int) -> int {
    y * (MAP_WIDTH as int) + x
}

/// The cell that row-major tile index `i` describes.
pub open spec fn index_position(i: int) -> [i32; 2] {
    [(i % (MAP_WIDTH as int)) as i32, (i / (MAP_WIDTH as int)) as i32]
}

/// A tile sequence shaped like a map grid: one tile per cell, each knowing
/// its own position.
pub open spec fn wf_tiles(tiles: Seq<Tile>) -> bool {
    &&& tiles.len() == grid_size()
    &&& forall|i: int| 0 <= i < tiles.len() ==> (#[trigger] tiles[i]).position == index_position(i)
}

/// The tile stored for position `p`, or `None` when `p` is off the grid.
pub open spec fn spec_lookup(tiles: Seq<Tile>, p: [i32; 2]) -> Option<Tile> {
    if spec_in_bounds(p[0] as int, p[1] as int) && grid_index(p[0] as int, p[1] as int)
        < tiles.len() {
        Some(tiles[grid_index(p[0] as int, p[1] as int)])
    } else {
        None
    }
}

/// The grid of a freshly created map: dirt floor everywhere.
pub open spec fn spec_default_tiles() -> Seq<Tile> {
    Seq::new(
        grid_size() as nat,
        |i: int| Tile { tile_type: TileType::Floor(FloorType::Dirt), position: index_position(i) },
    )
}

/// Generates and stores information about the game's current arrangement
/// of tiles.  This ultimately makes up the virtual space that the elements
/// of the game interact with, and within which they can be said to exist.
pub struct TileMap {
    tiles: Vec<Tile>,
}

impl View for TileMap {
    type V = Seq<Tile>;

    closed spec fn view(&self) -> Seq<Tile> {
        self.tiles@
    }
}

impl TileMap {
    /// Creates and returns a new instance of the TileMap struct.
    pub fn new() -> (r: TileMap)
        ensures
            r@ == spec_default_tiles(),
    {
        let total: usize = 1792;
        assert(total == grid_size());
        let mut tiles: Vec<Tile> = Vec::new();
        let mut i: usize = 0;
        while i < total
            invariant
                i <= total,
                total == grid_size(),
                tiles@.len() == i as int,
                forall|j: int| 0 <= j < i as int ==> tiles@[j] == spec_default_tiles()[j],
            decreases total - i,
        {
            let x = (i % (MAP_WIDTH as usize)) as i32;
            let y = (i / (MAP_WIDTH as usize)) as i32;
            tiles.push(Tile { tile_type: TileType::Floor(FloorType::Dirt), position: [x, y] });
            i = i + 1;
        }
        let r = TileMap { tiles };
        proof {
            assert(r.tiles@ =~= spec_default_tiles());
        }
        r
    }

    /// Builds a map directly from a sequence of tile types laid out in
    /// row-major order; cells beyond the provided sequence keep dirt floor.
    pub fn from_tile_types(types: &Vec<TileType>) -> (r: TileMap)
        ensures
            r@.len() == grid_size(),
            forall|i: int|
                0 <= i < grid_size() ==> (#[trigger] r@[i]) == (Tile {
                    tile_type: if i < types@.len() {
                        types@[i]
                    } else {
                        TileType::Floor(FloorType::Dirt)
                    },
                    position: index_position(i),
                }),
    {
        let total: usize = 1792;
        assert(total == grid_size());
        let mut tiles: Vec<Tile> = Vec::new();
        let mut i: usize = 0;
        while i < total
            invariant
                i <= total,
                total == grid_size(),
                tiles@.len() == i as int,
                forall|j: int|
                    0 <= j < i as int ==> (#[trigger] tiles@[j]) == (Tile {
                        tile_type: if j < types@.len() {
                            types@[j]
                        } else {
                            TileType::Floor(FloorType::Dirt)
                        },
                        position: index_position(j),
                    }),
            decreases total - i,
        {
            let x = (i % (MAP_WIDTH as usize)) as i32;
            let y = (i / (MAP_WIDTH as usize)) as i32;
            let tt = if i < types.len() {
                types[i]
            } else {
                TileType::Floor(FloorType::Dirt)
            };
            tiles.push(Tile { tile_type: tt, position: [x, y] });
            i = i + 1;
        }
        TileMap { tiles }
    }

    /// Returns the element at the specified offset, or nothing when the
    /// offset lies outside the grid.
    pub fn get_at(&self, position: [i32; 2]) -> (r: Option<Tile>)
        ensures
            r == spec_lookup(self@, position),
    {
        let (x, y) = (position[0], position[1]);
        if x >= 0 && x < MAP_WIDTH && y >= 0 && y < MAP_HEIGHT {
            let idx: usize = (y as usize) * (MAP_WIDTH as usize) + (x as usize);
            if idx < self.tiles.len() {
                Some(self.tiles[idx])
            } else {
                None
            }
        } else {
            None
        }
    }

    /// Sets the type of the tile at the specified position; a position
    /// outside the grid leaves the map unchanged.
    pub fn set_at(&mut self, position: [i32; 2], tile_type: TileType)
        ensures
            final(self)@ == ({
                let x = position[0] as int;
                let y = position[1] as int;
                if spec_in_bounds(x, y) && grid_index(x, y) < old(self)@.len() {
                    old(self)@.update(grid_index(x, y), Tile { tile_type, position })
                } else {
                    old(self)@
                }
            }),
    {
        let (x, y) = (position[0], position[1]);
        if x >= 0 && x < MAP_WIDTH && y >= 0 && y < MAP_HEIGHT {
            let idx: usize = (y as usize) * (MAP_WIDTH as usize) + (x as usize);
            if idx < self.tiles.len() {
                self.tiles.set(idx, Tile { tile_type, position });
            }
        }
    }

    /// Returns the width, in number of tiles, of the map.
    pub fn width(&self) -> (r: usize)
        ensures
            r == MAP_WIDTH as usize,
    {
        MAP_WIDTH as usize
    }

    /// Returns the height, in number of tiles, of the map.
    pub fn height(&self) -> (r: usize)
        ensures
            r == MAP_HEIGHT as usize,
    {
        MAP_HEIGHT as usize
    }
}

} // verus!
