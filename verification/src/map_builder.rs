//! Builds maps: keeps the terrain seed and the running world offset, lays
//! wall markers from the terrain collaborator out as tiles, and fixes wall
//! orientations so that walls with floor below them show their face.
//!
//! The collaborator itself only turns sample points into wall markers; which
//! points are sampled, and everything the markers become, is decided here.

use vstd::prelude::*;
use crate::map::{grid_size, index_position, TileMap};
use crate::tile::{FloorType, TileType, WallOrientation, WallType};
use crate::{MAP_HEIGHT, MAP_WIDTH};

verus! {

/// The tile type that a wall marker lays down before orientation fixing:
/// marked cells become stone wall tops, everything else dirt floor.
pub open spec fn spec_raw_tile_type(markers: Seq<bool>, i: int) -> TileType {
    if 0 <= i < markers.len() && markers[i] {
        TileType::Wall(WallOrientation::Top, WallType::Stone)
    } else {
        TileType::Floor(FloorType::Dirt)
    }
}

/// The tile type after the orientation-fixing pass: a wall top whose
/// southern neighbor is a floor becomes a wall face of the same material.
pub open spec fn spec_fixed_tile_type(markers: Seq<bool>, i: int) -> TileType {
    match spec_raw_tile_type(markers, i) {
        TileType::Wall(WallOrientation::Top, wall_type) => {
            if i + (MAP_WIDTH as int) < grid_size() && (spec_raw_tile_type(
                markers,
                i + (MAP_WIDTH as int),
            ) matches TileType::Floor(_)) {
                TileType::Wall(WallOrientation::Face, wall_type)
            } else {
                spec_raw_tile_type(markers, i)
            }
        },
        _ => spec_raw_tile_type(markers, i),
    }
}

/// The world point at which the terrain collaborator is sampled for cell
/// index `i` of the map at world offset `off`: adjacent offsets shift the
/// sampling window by one map span per axis, keeping terrain continuous
/// across map transitions.
pub open spec fn spec_sample_point(off: [i32; 2], i: int) -> (int, int) {
    (
        (MAP_WIDTH - 1) as int * off[0] + i % (MAP_WIDTH as int),
        (MAP_HEIGHT - 1) as int * off[1] + i / (MAP_WIDTH as int),
    )
}

/// Builds maps.
pub struct MapBuilder {
    seed: u32,
    current_offset: [i32; 2],
}

impl MapBuilder {
    /// Creates and returns a new instance of the MapBuilder struct, seeded
    /// from the random number generator and standing at the origin offset.
    pub fn new() -> (r: MapBuilder)
        ensures
            r.current_offset() == [0i32, 0i32],
    {
        MapBuilder { seed: rand::random::<u32>(), current_offset: [0, 0] }
    }

    /// Creates a map builder with a chosen seed, standing at the origin.
    pub fn with_seed(seed: u32) -> (r: MapBuilder)
        ensures
            r.seed() == seed,
            r.current_offset() == [0i32, 0i32],
    {
        MapBuilder { seed, current_offset: [0, 0] }
    }

    /// The seed that the terrain collaborator should be driven with.
    pub closed spec fn seed(&self) -> u32 {
        self.seed
    }

    /// The accumulated world offset of the most recently requested map.
    pub closed spec fn current_offset(&self) -> [i32; 2] {
        self.current_offset
    }

    /// Returns the seed that the terrain collaborator should be driven with.
    pub fn get_seed(&self) -> (r: u32)
        ensures
            r == self.seed(),
    {
        self.seed
    }

    /// Returns the accumulated world offset of the most recent map.
    pub fn get_current_offset(&self) -> (r: [i32; 2])
        ensures
            r == self.current_offset(),
    {
        self.current_offset
    }

    /// Advances the running world offset by the given relative offset, each
    /// axis wrapping at the ends of the coordinate space.
    pub fn advance_offset(&mut self, offset: [i32; 2])
        ensures
            final(self).seed() == old(self).seed(),
            final(self).current_offset() == [
                vstd::wrapping::i32_specs::wrapping_add(old(self).current_offset()[0], offset[0]),
                vstd::wrapping::i32_specs::wrapping_add(old(self).current_offset()[1], offset[1]),
            ],
    {
        self.current_offset = [
            self.current_offset[0].wrapping_add(offset[0]),
            self.current_offset[1].wrapping_add(offset[1]),
        ];
    }

    /// Returns the world points at which the terrain collaborator must be
    /// sampled, one per cell in row-major order, for the current offset.
    pub fn sample_points(&self) -> (r: Vec<(i64, i64)>)
        ensures
            r@.len() == grid_size(),
            forall|i: int|
                0 <= i < grid_size() ==> (#[trigger] r@[i]).0 == spec_sample_point(
                    self.current_offset(),
                    i,
                ).0 && r@[i].1 == spec_sample_point(self.current_offset(), i).1,
    {
        let total: usize = 1792;
        assert(total == grid_size());
        let off_x = self.current_offset[0] as i64;
        let off_y = self.current_offset[1] as i64;
        let mut points: Vec<(i64, i64)> = Vec::new();
        let mut i: usize = 0;
        while i < total
            invariant
                i <= total,
                total == grid_size(),
                off_x == self.current_offset()[0] as int,
                off_y == self.current_offset()[1] as int,
                points@.len() == i as int,
                forall|j: int|
                    0 <= j < i as int ==> (#[trigger] points@[j]).0 == spec_sample_point(
                        self.current_offset(),
                        j,
                    ).0 && points@[j].1 == spec_sample_point(self.current_offset(), j).1,
            decreases total - i,
        {
            let x = (i % (MAP_WIDTH as usize)) as i64;
            let y = (i / (MAP_WIDTH as usize)) as i64;
            proof {
                assert(-0x20_0000_0000 <= 55 * off_x <= 0x20_0000_0000 && -0x20_0000_0000 <= 31
                    * off_y <= 0x20_0000_0000) by (nonlinear_arith)
                    requires
                        -0x8000_0000 <= off_x <= 0x7fff_ffff,
                        -0x8000_0000 <= off_y <= 0x7fff_ffff,
                ;
            }
            let sx = 55i64 * off_x + x;
            let sy = 31i64 * off_y + y;
            points.push((sx, sy));
            i = i + 1;
        }
        points
    }

    /// Generates a new map from the collaborator's wall markers for the
    /// current offset: markers become stone walls on dirt floor, and wall
    /// tops with floor directly below become wall faces.
    pub fn create(&self, markers: &Vec<bool>) -> (r: TileMap)
        ensures
            r@.len() == grid_size(),
            forall|i: int|
                0 <= i < grid_size() ==> (#[trigger] r@[i]) == (crate::tile::Tile {
                    tile_type: spec_fixed_tile_type(markers@, i),
                    position: index_position(i),
                }),
    {
        let total: usize = 1792;
        assert(total == grid_size());
        // first pass: markers become raw wall tops and dirt floor
        let mut raw: Vec<TileType> = Vec::new();
        let mut i: usize = 0;
        while i < total
            invariant
                i <= total,
                total == grid_size(),
                raw@.len() == i as int,
                forall|j: int|
                    0 <= j < i as int ==> (#[trigger] raw@[j]) == spec_raw_tile_type(markers@, j),
            decreases total - i,
        {
            let is_wall = if i < markers.len() {
                markers[i]
            } else {
                false
            };
            if is_wall {
                raw.push(TileType::Wall(WallOrientation::Top, WallType::Stone));
            } else {
                raw.push(TileType::Floor(FloorType::Dirt));
            }
            i = i + 1;
        }
        // second pass: wall tops with floor below become wall faces
        let mut fixed: Vec<TileType> = Vec::new();
        let mut k: usize = 0;
        while k < total
            invariant
                k <= total,
                total == grid_size(),
                raw@.len() == total as int,
                forall|j: int|
                    0 <= j < total as int ==> (#[trigger] raw@[j]) == spec_raw_tile_type(
                        markers@,
                        j,
                    ),
                fixed@.len() == k as int,
                forall|j: int|
                    0 <= j < k as int ==> (#[trigger] fixed@[j]) == spec_fixed_tile_type(
                        markers@,
                        j,
                    ),
            decreases total - k,
        {
            let mut t = raw[k];
            if let TileType::Wall(WallOrientation::Top, wall_type) = t {
                let below = k + (MAP_WIDTH as usize);
                if below < total {
                    if let TileType::Floor(_) = raw[below] {
                        t = TileType::Wall(WallOrientation::Face, wall_type);
                    }
                }
            }
            fixed.push(t);
            k = k + 1;
        }
        TileMap::from_tile_types(&fixed)
    }

    /// Creates a new map at the specified relative world offset: the running
    /// offset advances first, and the markers must have been sampled for the
    /// advanced offset.
    pub fn create_offset(&mut self, offset: [i32; 2], markers: &Vec<bool>) -> (r: TileMap)
        ensures
            final(self).seed() == old(self).seed(),
            final(self).current_offset() == [
                vstd::wrapping::i32_specs::wrapping_add(old(self).current_offset()[0], offset[0]),
                vstd::wrapping::i32_specs::wrapping_add(old(self).current_offset()[1], offset[1]),
            ],
            r@.len() == grid_size(),
            forall|i: int|
                0 <= i < grid_size() ==> (#[trigger] r@[i]) == (crate::tile::Tile {
                    tile_type: spec_fixed_tile_type(markers@, i),
                    position: index_position(i),
                }),
    {
        self.advance_offset(offset);
        self.create(markers)
    }
}

} // verus!
