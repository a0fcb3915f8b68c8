//! The narrow trusted boundary to the outside crates: line rasterization,
//! random numbers and fresh identities.
//!
//! Each function here is believed on its stated contract; everything that
//! consumes these results is verified against those statements.

use vstd::prelude::*;

verus! {

/// The Chebyshev distance between two grid cells: the greater of the two
/// per-axis absolute differences.
pub open spec fn chebyshev_distance(sx: i32, sy: i32, ex: i32, ey: i32) -> int {
    let dx = if ex >= sx {
        ex - sx
    } else {
        sx - ex
    };
    let dy = if ey >= sy {
        ey - sy
    } else {
        sy - ey
    };
    if dx >= dy {
        dx
    } else {
        dy
    }
}

/// The rasterized grid line from `(sx, sy)` toward `(ex, ey)`: the cells that
/// `bresenham::Bresenham` yields, starting at the start cell and stopping
/// short of the end cell.  The same endpoints always give the same line.
pub uninterp spec fn line_points(sx: i32, sy: i32, ex: i32, ey: i32) -> Seq<(i32, i32)>;

/// Relies on `bresenham::Bresenham::new` and its iterator: the yielded line
/// includes the start but not the end — no yielded cell is the end cell,
/// every yield strictly preceding it along the driving axis — its first
/// cell is the start, and it walks one cell per step of the longer axis, so
/// its length is the Chebyshev distance between the endpoints.
#[verifier::external_body]
pub(crate) fn bresenham_line(sx: i32, sy: i32, ex: i32, ey: i32) -> (r: Vec<(i32, i32)>)
    ensures
        r@ == line_points(sx, sy, ex, ey),
        r@.len() == chebyshev_distance(sx, sy, ex, ey),
        r@.len() > 0 ==> r@[0] == (sx, sy),
        forall|i: int| 0 <= i < r@.len() ==> (#[trigger] r@[i]) != (ex, ey),
{
    let mut v = Vec::new();
    for p in bresenham::Bresenham::new((sx as isize, sy as isize), (ex as isize, ey as isize)) {
        v.push((p.0 as i32, p.1 as i32));
    }
    v
}

/// Draws a fresh value from the thread-local random number generator.
/// Relies on `rand::random`; nothing is promised of the result.
pub assume_specification<T>[ rand::random::<T> ]() -> (r: T)
    where
        rand::distributions::Standard: rand::distributions::Distribution<T>,
;

/// Relies on `uuid::Uuid::new_v4`: a freshly drawn random version-4 UUID,
/// handed out as its 128-bit value.  Nothing is promised of the result; in
/// particular, distinctness from earlier draws is overwhelmingly likely but
/// never guaranteed.
#[verifier::external_body]
pub(crate) fn fresh_actor_id() -> (r: u128) {
    uuid::Uuid::new_v4().as_u128()
}

} // verus!
