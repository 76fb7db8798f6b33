//! The kinds of enemies and what each kind is.

use vstd::prelude::*;

verus! {

/// How strong an enemy is.
#[derive(PartialEq, Eq, Structural, Clone, Copy, Debug)]
pub enum EnemyRank {
    Normal,
    Elite,
    Boss,
}

/// How an enemy fights.
#[derive(PartialEq, Eq, Structural, Clone, Copy, Debug)]
pub enum EnemyArchetype {
    /// Closes in, then attacks.
    Melee,
    /// Keeps its distance and shoots.
    Ranged,
    /// Casts spells or area skills.
    Caster,
    /// Heals, strengthens or summons other enemies.
    Support,
}

/// The trade of an enemy.
#[derive(PartialEq, Eq, Structural, Clone, Copy, Debug)]
pub enum EnemyClass {
    Warrior,
    Archer,
    Mage,
    Priest,
}

/// The identity of an enemy.
#[derive(PartialEq, Eq, Structural, Clone, Copy, Debug)]
pub enum EnemyId {
    GoblinWarrior,
    SkeletonArcher,
    FireMage,
    HealingPriest,
}

/// What each enemy is: how it fights, its trade and its rank.
pub open spec fn spec_profile(id: EnemyId) -> (EnemyArchetype, EnemyClass, EnemyRank) {
    match id {
        EnemyId::GoblinWarrior => (EnemyArchetype::Melee, EnemyClass::Warrior, EnemyRank::Normal),
        EnemyId::SkeletonArcher => (EnemyArchetype::Ranged, EnemyClass::Archer, EnemyRank::Normal),
        EnemyId::FireMage => (EnemyArchetype::Ranged, EnemyClass::Mage, EnemyRank::Elite),
        EnemyId::HealingPriest => (EnemyArchetype::Ranged, EnemyClass::Priest, EnemyRank::Elite),
    }
}

impl EnemyId {
    /// How the enemy fights, its trade and its rank.
    pub fn profile(self) -> (r: (EnemyArchetype, EnemyClass, EnemyRank))
        ensures
            r == spec_profile(self),
    {
        match self {
            EnemyId::GoblinWarrior => (EnemyArchetype::Melee, EnemyClass::Warrior, EnemyRank::Normal),
            EnemyId::SkeletonArcher => (
                EnemyArchetype::Ranged,
                EnemyClass::Archer,
                EnemyRank::Normal,
            ),
            EnemyId::FireMage => (EnemyArchetype::Ranged, EnemyClass::Mage, EnemyRank::Elite),
            EnemyId::HealingPriest => (EnemyArchetype::Ranged, EnemyClass::Priest, EnemyRank::Elite),
        }
    }
}

} // verus!
