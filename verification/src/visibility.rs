//! Field of view: a ray is cast from the player's position to a target
//! cell along the rasterized grid line and walked cell by cell; walls on
//! the way obstruct, and distance fades visibility in tiers.

use vstd::prelude::*;
use crate::map::{spec_lookup, TileMap};
use crate::outside::{bresenham_line, chebyshev_distance, line_points};
use crate::tile::{is_wall, Tile};

verus! {

/// Positions farther than this many ray steps from the player are not
/// rendered at all.
pub const MAX_VISIBLE_DISTANCE: u32 = 8;

/// The width of the distance band, ending at the maximum visible distance,
/// in which positions are rendered darkened.
pub const VISIBILITY_FALLOFF: u32 = 5;

/// How visible a position is, relative to the player.
#[derive(Clone, Copy, Debug, PartialEq, Eq, Structural)]
pub enum Visibility {
    /// Rendered normally.
    Full,
    /// Rendered with a darkening overlay.
    Half,
    /// Not rendered at all.
    Invisible,
}

/// Whether the ray cell `p` obstructs sight on `tiles`: only an on-grid
/// wall does.
pub open spec fn spec_ray_cell_blocks(tiles: Seq<Tile>, p: (i32, i32)) -> bool {
    match spec_lookup(tiles, [p.0, p.1]) {
        Some(t) => is_wall(t.tile_type),
        None => false,
    }
}

/// Walks the ray cells `pts[i..]` in order: the result is whether no walked
/// cell blocked, together with the number of steps walked, counting from the
/// ray's start; a blocking cell stops the walk at its own step index.
pub open spec fn spec_ray_walk(tiles: Seq<Tile>, pts: Seq<(i32, i32)>, i: int) -> (bool, int)
    decreases pts.len() - i,
{
    if i < 0 || i >= pts.len() {
        (true, pts.len() - 1)
    } else if spec_ray_cell_blocks(tiles, pts[i]) {
        (false, i)
    } else {
        spec_ray_walk(tiles, pts, i + 1)
    }
}

/// Whether the view from `origin` to `target` is uninterrupted, and the
/// distance between the two: a same-position ray sees itself at distance
/// zero; any other ray is the rasterized line walked cell by cell, the
/// origin itself never obstructing.
pub open spec fn spec_ray_outcome(tiles: Seq<Tile>, origin: [i32; 2], target: [i32; 2]) -> (
    bool,
    int,
) {
    if origin == target {
        (true, 0)
    } else {
        spec_ray_walk(tiles, line_points(origin[0], origin[1], target[0], target[1]), 1)
    }
}

/// The visibility tier for a ray outcome: an obstructed or too-distant
/// position is invisible, an unobstructed one within the falloff band is
/// half visible, and anything nearer is fully visible.
pub open spec fn spec_visibility_class(unobscured: bool, distance: int) -> Visibility {
    if !unobscured || distance > MAX_VISIBLE_DISTANCE as int {
        Visibility::Invisible
    } else if distance > MAX_VISIBLE_DISTANCE as int - VISIBILITY_FALLOFF as int {
        Visibility::Half
    } else {
        Visibility::Full
    }
}

/// The visibility tier of `target` as seen from `origin` on `tiles`.
pub open spec fn spec_visibility_of(tiles: Seq<Tile>, origin: [i32; 2], target: [i32; 2]) -> Visibility {
    spec_visibility_class(
        spec_ray_outcome(tiles, origin, target).0,
        spec_ray_outcome(tiles, origin, target).1,
    )
}

/// Returns a tuple indicating both whether the view from the origin to the
/// target is uninterrupted, and also the distance between the two.
pub fn ray_visible(map: &TileMap, origin: [i32; 2], target: [i32; 2]) -> (r: (bool, u32))
    ensures
        r.0 == spec_ray_outcome(map@, origin, target).0,
        r.1 as int == spec_ray_outcome(map@, origin, target).1,
{
    if origin[0] == target[0] && origin[1] == target[1] {
        proof {
            assert(origin =~= target);
        }
        return (true, 0);
    }
    proof {
        assert(origin[0] != target[0] || origin[1] != target[1]);
    }
    let pts = bresenham_line(origin[0], origin[1], target[0], target[1]);
    proof {
        assert(chebyshev_distance(origin[0], origin[1], target[0], target[1]) >= 1);
    }
    let mut i: usize = 1;
    while i < pts.len()
        invariant
            origin != target,
            1 <= i,
            i <= pts.len(),
            pts@ == line_points(origin[0], origin[1], target[0], target[1]),
            pts@.len() >= 1,
            pts@.len() <= u32::MAX as int,
            spec_ray_walk(map@, pts@, 1) == spec_ray_walk(map@, pts@, i as int),
        decreases pts.len() - i,
    {
        let p = pts[i];
        if let Some(tile) = map.get_at([p.0, p.1]) {
            if matches!(tile.tile_type, crate::tile::TileType::Wall(_, _)) {
                return (false, i as u32);
            }
        }
        i = i + 1;
    }
    (true, (pts.len() - 1) as u32)
}

/// Classifies a ray outcome into a visibility tier.
pub fn classify_visibility(unobscured: bool, distance: u32) -> (r: Visibility)
    ensures
        r == spec_visibility_class(unobscured, distance as int),
{
    if !unobscured || distance > MAX_VISIBLE_DISTANCE {
        Visibility::Invisible
    } else if distance > MAX_VISIBLE_DISTANCE - VISIBILITY_FALLOFF {
        Visibility::Half
    } else {
        Visibility::Full
    }
}

/// How far from full visibility a tier is; used to state that visibility
/// only degrades with distance.
pub open spec fn spec_visibility_rank(v: Visibility) -> int {
    match v {
        Visibility::Full => 0,
        Visibility::Half => 1,
        Visibility::Invisible => 2,
    }
}

/// Over unobstructed terrain, growing distance only degrades the visibility
/// tier, and it crosses the tiers exactly at the configured thresholds:
/// full up to the start of the falloff band, half through the band, and
/// invisible past the maximum visible distance.
pub proof fn lemma_visibility_monotone(d1: int, d2: int)
    requires
        0 <= d1 <= d2,
    ensures
        spec_visibility_rank(spec_visibility_class(true, d1)) <= spec_visibility_rank(
            spec_visibility_class(true, d2),
        ),
        d1 <= MAX_VISIBLE_DISTANCE as int - VISIBILITY_FALLOFF as int ==> spec_visibility_class(
            true,
            d1,
        ) == Visibility::Full,
        ((MAX_VISIBLE_DISTANCE as int - VISIBILITY_FALLOFF as int) < d1 && d1
            <= MAX_VISIBLE_DISTANCE as int) ==> spec_visibility_class(true, d1)
            == Visibility::Half,
        d1 > MAX_VISIBLE_DISTANCE as int ==> spec_visibility_class(true, d1)
            == Visibility::Invisible,
{
}

/// A position is always fully visible from itself.
pub proof fn lemma_same_position_fully_visible(tiles: Seq<Tile>, p: [i32; 2])
    ensures
        spec_visibility_of(tiles, p, p) == Visibility::Full,
{
}

/// An obstructed ray is invisible regardless of its distance.
pub proof fn lemma_obstructed_is_invisible(d: int)
    ensures
        spec_visibility_class(false, d) == Visibility::Invisible,
{
}

/// A walk that reports an uninterrupted view really walked past no wall:
/// no cell of `pts[i..]` blocks.
pub proof fn lemma_walk_clear_means_no_wall(tiles: Seq<Tile>, pts: Seq<(i32, i32)>, i: int)
    requires
        0 <= i,
        spec_ray_walk(tiles, pts, i).0,
    ensures
        forall|k: int| i <= k < pts.len() ==> !spec_ray_cell_blocks(tiles, #[trigger] pts[k]),
    decreases pts.len() - i,
{
    if i < pts.len() {
        lemma_walk_clear_means_no_wall(tiles, pts, i + 1);
    }
}

/// If any cell strictly between origin and target — any ray cell past the
/// origin — is a wall, the target is invisible from the origin, regardless
/// of the distance between the two.
pub proof fn lemma_obstruction(tiles: Seq<Tile>, origin: [i32; 2], target: [i32; 2], k: int)
    requires
        origin != target,
        1 <= k < line_points(origin[0], origin[1], target[0], target[1]).len(),
        spec_ray_cell_blocks(tiles, line_points(origin[0], origin[1], target[0], target[1])[k]),
    ensures
        spec_visibility_of(tiles, origin, target) == Visibility::Invisible,
{
    let pts = line_points(origin[0], origin[1], target[0], target[1]);
    if spec_ray_outcome(tiles, origin, target).0 {
        lemma_walk_clear_means_no_wall(tiles, pts, 1);
        assert(!spec_ray_cell_blocks(tiles, pts[k]));
    }
}

} // verus!
