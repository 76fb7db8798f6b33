//! Which edge of the arena an enemy enters from.

use rand::RngExt;
use vstd::prelude::*;

verus! {

/// An edge of the arena.
#[derive(PartialEq, Eq, Structural, Clone, Copy, Debug)]
pub enum SpawnEdge {
    Bottom,
    Top,
    Left,
    Right,
}

/// The edge a roll stands for: 0 bottom, 1 top, 2 left, anything else right.
pub open spec fn spec_edge(roll: u32) -> SpawnEdge {
    if roll == 0 {
        SpawnEdge::Bottom
    } else if roll == 1 {
        SpawnEdge::Top
    } else if roll == 2 {
        SpawnEdge::Left
    } else {
        SpawnEdge::Right
    }
}

/// `rand::rng().random_range(..n)`: a number drawn from the thread-local
/// generator below `n`. It panics on an empty range, hence `n > 0`; nothing
/// more is claimed of the draw than that it lies in the range.
#[verifier::external_body]
fn roll_below(n: u32) -> (r: u32)
    requires
        n > 0,
    ensures
        r < n,
{
    rand::rng().random_range(..n)
}

impl SpawnEdge {
    /// The edge a roll of a four-sided die stands for.
    pub fn from_roll(roll: u32) -> (e: SpawnEdge)
        ensures
            e == spec_edge(roll),
    {
        if roll == 0 {
            SpawnEdge::Bottom
        } else if roll == 1 {
            SpawnEdge::Top
        } else if roll == 2 {
            SpawnEdge::Left
        } else {
            SpawnEdge::Right
        }
    }
}

/// Picks the edge an enemy enters from, each of the four by one roll of a
/// four-sided die.
pub fn random_edge() -> (e: SpawnEdge)
    ensures
        exists|roll: u32| roll < 4 && e == spec_edge(roll),
{
    let roll = roll_below(4);
    SpawnEdge::from_roll(roll)
}

} // verus!
