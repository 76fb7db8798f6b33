//! Which side a unit fights on.

use vstd::prelude::*;

verus! {

/// The side of a unit.
#[derive(PartialEq, Eq, Structural, Clone, Copy, Debug)]
pub enum Faction {
    Player,
    Enemy,
}

/// A unit is on the player's side when nothing else is said.
impl Default for Faction {
    fn default() -> (f: Faction)
        ensures
            f == Faction::Player,
    {
        Faction::Player
    }
}

impl Faction {
    /// Units of different factions attack each other; units of one faction never do.
    pub fn is_hostile_to(self, other: Faction) -> (r: bool)
        ensures
            r == (self != other),
    {
        self != other
    }
}

} // verus!
