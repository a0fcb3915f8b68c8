//! Markers shared with the text-rendering layer.
//!
//! Rasterizing glyphs is the presentation layer's business and lives
//! outside this library; the size markers it selects fonts by are plain
//! values and are kept here.

use vstd::prelude::*;

verus! {

/// Represents available predefined font sizes.
#[derive(Clone, Copy, Debug, PartialEq, Eq, Structural)]
pub enum FontSize {
    /// A 32-pixel font.
    Size32,
    /// A 24-pixel font.
    Size24,
    /// An 18-pixel font.
    Size18,
}

} // verus!
