//! Per-cell terrain classification and its visual attributes.

use vstd::prelude::*;
use crate::sprite_info::{SpriteInfo, SpriteKey};

verus! {

/// The terrain classification of a single grid cell.
#[derive(Clone, Copy, Debug, PartialEq, Eq, Structural)]
pub enum TileType {
    /// Nothing at all; blocks movement and is drawn as darkness.
    Empty,
    /// A wall, blocking movement and sight.
    Wall(WallOrientation, WallType),
    /// Walkable ground of some material.
    Floor(FloorType),
}

/// Distinguishes a wall's walkable-behind top face from its blocking front face.
#[derive(Clone, Copy, Debug, PartialEq, Eq, Structural)]
pub enum WallOrientation {
    /// The front of the wall, seen from the south.
    Face,
    /// The top of the wall, seen from above.
    Top,
}

/// The material a wall is made of.
#[derive(Clone, Copy, Debug, PartialEq, Eq, Structural)]
pub enum WallType {
    /// Fired brick.
    Brick,
    /// Rough stone.
    Stone,
    /// Dried adobe.
    Adobe,
}

/// The material a floor is made of.
#[derive(Clone, Copy, Debug, PartialEq, Eq, Structural)]
pub enum FloorType {
    /// Packed dirt.
    Dirt,
    /// Stone slabs.
    Stone,
    /// Short grass.
    Grass,
    /// Loose gravel.
    Gravel,
    /// Wooden boards.
    Wood,
    /// Vegetation-covered ground.
    Overgrown,
    /// Standing water; passable but fluid.
    Water,
    /// Deep mud; passable but fluid.
    Mud,
}

/// Whether this tile type is a wall of any orientation or material.
pub open spec fn is_wall(t: TileType) -> bool {
    t matches TileType::Wall(_, _)
}

/// Whether this tile type is a floor whose material behaves as a fluid.
pub open spec fn is_fluid_floor(t: TileType) -> bool {
    t == TileType::Floor(FloorType::Water) || t == TileType::Floor(FloorType::Mud)
}

/// Represents a unit of space within the game's map.
#[derive(Clone, Copy, Debug, PartialEq, Eq)]
pub struct Tile {
    /// The type of tile that this instance represents.
    pub tile_type: TileType,

    /// The position of the tile in the 2D array that makes up the map.
    pub position: [i32; 2],
}

/// The sprite key and tint that each tile type is rendered with.
pub open spec fn spec_tile_sprite(t: TileType) -> SpriteInfo {
    match t {
        TileType::Empty => SpriteInfo { key: SpriteKey::Void, color: [0u16, 0u16, 0u16, 0u16] },
        TileType::Wall(orientation, style) => SpriteInfo {
            key: match orientation {
                WallOrientation::Face => SpriteKey::WallFace,
                WallOrientation::Top => SpriteKey::WallTop,
            },
            color: match style {
                WallType::Stone => [439u16, 498u16, 475u16, 100u16],
                _ => [1000u16, 1000u16, 1000u16, 1000u16],
            },
        },
        TileType::Floor(style) => match style {
            FloorType::Dirt => SpriteInfo {
                key: SpriteKey::Ground,
                color: [525u16, 408u16, 290u16, 1000u16],
            },
            FloorType::Stone => SpriteInfo {
                key: SpriteKey::Brick,
                color: [267u16, 427u16, 416u16, 1000u16],
            },
            FloorType::Grass => SpriteInfo {
                key: SpriteKey::Ground,
                color: [224u16, 408u16, 247u16, 1000u16],
            },
            FloorType::Gravel => SpriteInfo {
                key: SpriteKey::Ground,
                color: [176u16, 153u16, 137u16, 1000u16],
            },
            FloorType::Wood => SpriteInfo {
                key: SpriteKey::Wood,
                color: [675u16, 490u16, 333u16, 1000u16],
            },
            FloorType::Overgrown => SpriteInfo {
                key: SpriteKey::Plant,
                color: [78u16, 314u16, 165u16, 1000u16],
            },
            FloorType::Water => SpriteInfo {
                key: SpriteKey::Fluid,
                color: [67u16, 224u16, 588u16, 1000u16],
            },
            FloorType::Mud => SpriteInfo {
                key: SpriteKey::Fluid,
                color: [216u16, 149u16, 110u16, 1000u16],
            },
        },
    }
}

impl Tile {
    /// Creates and returns a new instance of the Tile struct.
    pub fn new() -> (r: Tile)
        ensures
            r == (Tile { tile_type: TileType::Floor(FloorType::Dirt), position: [0i32, 0i32] }),
    {
        Tile { tile_type: TileType::Floor(FloorType::Dirt), position: [0, 0] }
    }

    /// Returns the sprite key and tint that this tile is drawn with.
    pub fn sprite_components(&self) -> (r: SpriteInfo)
        ensures
            r == spec_tile_sprite(self.tile_type),
    {
        match self.tile_type {
            TileType::Empty => SpriteInfo { key: SpriteKey::Void, color: [0, 0, 0, 0] },
            TileType::Wall(orientation, style) => {
                let key = match orientation {
                    WallOrientation::Face => SpriteKey::WallFace,
                    WallOrientation::Top => SpriteKey::WallTop,
                };
                let color = match style {
                    WallType::Stone => [439, 498, 475, 100],
                    _ => [1000, 1000, 1000, 1000],
                };
                SpriteInfo { key, color }
            },
            TileType::Floor(style) => match style {
                FloorType::Dirt => SpriteInfo { key: SpriteKey::Ground, color: [525, 408, 290, 1000] },
                FloorType::Stone => SpriteInfo { key: SpriteKey::Brick, color: [267, 427, 416, 1000] },
                FloorType::Grass => SpriteInfo { key: SpriteKey::Ground, color: [224, 408, 247, 1000] },
                FloorType::Gravel => SpriteInfo {
                    key: SpriteKey::Ground,
                    color: [176, 153, 137, 1000],
                },
                FloorType::Wood => SpriteInfo { key: SpriteKey::Wood, color: [675, 490, 333, 1000] },
                FloorType::Overgrown => SpriteInfo {
                    key: SpriteKey::Plant,
                    color: [78, 314, 165, 1000],
                },
                FloorType::Water => SpriteInfo { key: SpriteKey::Fluid, color: [67, 224, 588, 1000] },
                FloorType::Mud => SpriteInfo { key: SpriteKey::Fluid, color: [216, 149, 110, 1000] },
            },
        }
    }
}

} // verus!
