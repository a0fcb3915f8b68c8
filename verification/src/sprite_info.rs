//! Sprite lookup keys and tints handed to the rendering layer.

use vstd::prelude::*;

verus! {

/// Identifies which sprite of the texture atlas should be drawn.
#[derive(Clone, Copy, Debug, PartialEq, Eq, Structural)]
pub enum SpriteKey {
    /// A fully dark cell.
    Void,
    /// The blocking face of a wall.
    WallFace,
    /// The walkable-behind top of a wall.
    WallTop,
    /// Plain ground.
    Ground,
    /// Brickwork.
    Brick,
    /// Wooden boards.
    Wood,
    /// Overgrown vegetation.
    Plant,
    /// A liquid surface.
    Fluid,
    /// The player's avatar.
    Pc,
    /// A soldier.
    Mutant,
}

/// An RGBA tint with each channel expressed in thousandths of full intensity,
/// so that the renderer can recover the intended fractional values exactly.
pub const COLOR_CHANNEL_MAX: u16 = 1000;

/// Contains information about a sprite and its color.
///
/// The four color channels are red, green, blue and alpha, each ranging from
/// `0` to [`COLOR_CHANNEL_MAX`] thousandths.
#[derive(Clone, Copy, Debug, PartialEq, Eq)]
pub struct SpriteInfo {
    /// Which sprite should be drawn.
    pub key: SpriteKey,
    /// The tint to apply to the sprite, per channel in thousandths.
    pub color: [u16; 4],
}

} // verus!
