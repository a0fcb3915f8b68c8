//! Items that actors could pick up and carry.

use vstd::prelude::*;

verus! {

/// Stores information about a single item in the game's current state.
///
/// An item in this case is anything that can be used and/or examined,
/// and is feasible to store on one's person.
#[derive(Clone, Copy, Debug, PartialEq, Eq, Structural)]
pub struct Item {}

} // verus!
