//! The hit budget of a projectile: how many distinct targets it may still
//! strike, and which ones it has already struck.

use vstd::prelude::*;
use crate::faction::Faction;

verus! {

/// `u32::saturating_sub`, as a spec function.
pub open spec fn sat_sub(a: u32, b: u32) -> u32 {
    if a < b {
        0
    } else {
        (a - b) as u32
    }
}

/// The hit state of one projectile. Entities are identified by their bits.
pub struct Projectile {
    /// The unit that fired it.
    pub owner: u64,
    /// The weapon that fired it.
    pub owner_weapon: u64,
    /// How many more targets it may hit. A plain projectile starts at 1;
    /// each point of pierce adds one.
    pub remaining_hits: u32,
    /// Ricochets performed.
    pub ricochet: u32,
    /// Targets already hit, in order.
    pub hit: Vec<u64>,
    /// The budget is spent. Despawning is deferred, so this blocks further
    /// hits in the same frame.
    pub consumed: bool,
}

/// The mathematical state of a projectile.
pub struct ProjectileState {
    pub owner: u64,
    pub owner_weapon: u64,
    pub remaining_hits: u32,
    pub ricochet: u32,
    pub hit: Seq<u64>,
    pub consumed: bool,
}

impl View for Projectile {
    type V = ProjectileState;

    open spec fn view(&self) -> ProjectileState {
        ProjectileState {
            owner: self.owner,
            owner_weapon: self.owner_weapon,
            remaining_hits: self.remaining_hits,
            ricochet: self.ricochet,
            hit: self.hit@,
            consumed: self.consumed,
        }
    }
}

impl ProjectileState {
    /// The budget is spent exactly when no hit remains, and no target was hit twice.
    pub open spec fn wf(self) -> bool {
        &&& self.consumed == (self.remaining_hits == 0)
        &&& self.hit.no_duplicates()
    }
}

/// A target can be registered: the budget is not spent and the target was not hit yet.
pub open spec fn can_register(p: ProjectileState, target: u64) -> bool {
    !p.consumed && !p.hit.contains(target)
}

/// A hit on `target`: the projectile after it, and whether it was registered.
pub open spec fn spec_register_hit(p: ProjectileState, target: u64) -> (ProjectileState, bool) {
    if can_register(p, target) {
        let remaining = sat_sub(p.remaining_hits, 1);
        (
            ProjectileState {
                hit: p.hit.push(target),
                remaining_hits: remaining,
                consumed: remaining == 0,
                ..p
            },
            true,
        )
    } else {
        (p, false)
    }
}

/// What a collision of a projectile with another entity comes to.
#[derive(PartialEq, Eq, Structural, Clone, Copy, Debug)]
pub enum Collision {
    /// Nothing happens: no health, a friendly unit, or a target that cannot be registered.
    Ignored,
    /// The target takes the projectile's damage; `despawn` when the budget is now spent.
    Hit { despawn: bool },
}

/// The projectile's side of a collision with `target`, whose faction is
/// `target_faction` when it has health and `None` otherwise.
pub open spec fn spec_collision(
    p: ProjectileState,
    projectile_faction: Faction,
    target: u64,
    target_faction: Option<Faction>,
) -> (ProjectileState, Collision) {
    if target_faction matches Some(f) && f != projectile_faction {
        let (q, ok) = spec_register_hit(p, target);
        if ok {
            (q, Collision::Hit { despawn: q.consumed })
        } else {
            (p, Collision::Ignored)
        }
    } else {
        (p, Collision::Ignored)
    }
}

impl Projectile {
    /// A fresh projectile fired by `owner` with `owner_weapon`, that may pass
    /// through `pierce` targets before it stops.
    pub fn new(owner: u64, owner_weapon: u64, pierce: u32) -> (p: Projectile)
        ensures
            p.owner == owner,
            p.owner_weapon == owner_weapon,
            p.remaining_hits == (if pierce == u32::MAX {
                u32::MAX
            } else {
                (pierce + 1) as u32
            }),
            p.ricochet == 0,
            p.hit@ == Seq::<u64>::empty(),
            !p.consumed,
            p@.wf(),
    {
        Projectile {
            owner,
            owner_weapon,
            remaining_hits: pierce.saturating_add(1),
            ricochet: 0,
            hit: Vec::new(),
            consumed: false,
        }
    }

    /// Whether `target` was already hit.
    pub fn has_hit(&self, target: u64) -> (r: bool)
        ensures
            r == self.hit@.contains(target),
    {
        let mut i: usize = 0;
        while i < self.hit.len()
            invariant
                i <= self.hit@.len(),
                forall|j: int| 0 <= j < i ==> self.hit@[j] != target,
            decreases self.hit@.len() - i,
        {
            if self.hit[i] == target {
                return true;
            }
            i = i + 1;
        }
        false
    }

    /// Registers a hit on `target`; refused when the budget is spent or the
    /// target was already hit. Returns whether the hit was registered.
    pub fn try_register_hit(&mut self, target: u64) -> (ok: bool)
        ensures
            (final(self)@, ok) == spec_register_hit(old(self)@, target),
    {
        if self.consumed || self.has_hit(target) {
            return false;
        }
        self.hit.push(target);
        self.remaining_hits = self.remaining_hits.saturating_sub(1);
        self.consumed = self.remaining_hits == 0;
        true
    }
}

/// The projectile's side of a collision with entity `target`, whose faction
/// is `target_faction` when it has health and `None` otherwise (walls).
/// Friendly targets are ignored; a hostile one is registered if it can be,
/// and the projectile is despawned once its budget is spent.
pub fn projectile_collision(
    projectile: &mut Projectile,
    projectile_faction: Faction,
    target: u64,
    target_faction: Option<Faction>,
) -> (r: Collision)
    ensures
        (final(projectile)@, r) == spec_collision(
            old(projectile)@,
            projectile_faction,
            target,
            target_faction,
        ),
{
    let target_faction = match target_faction {
        Some(f) => f,
        None => return Collision::Ignored,
    };
    if !projectile_faction.is_hostile_to(target_faction) {
        return Collision::Ignored;
    }
    if !projectile.try_register_hit(target) {
        return Collision::Ignored;
    }
    Collision::Hit { despawn: projectile.consumed }
}

/// Registering a hit keeps a well-formed projectile well formed, and the
/// targets hit plus the hits remaining stay what they were: a projectile
/// never hits more targets than its budget, nor any target twice.
pub proof fn law_register_keeps_budget(before: ProjectileState, target: u64)
    requires
        before.wf(),
    ensures
        ({
            let (after, ok) = spec_register_hit(before, target);
            &&& after.wf()
            &&& after.hit.len() + after.remaining_hits == before.hit.len() + before.remaining_hits
            &&& ok ==> after.hit.len() == before.hit.len() + 1
        }),
{
    let (after, ok) = spec_register_hit(before, target);
    if ok {
        assert forall|i: int, j: int|
            0 <= i < after.hit.len() && 0 <= j < after.hit.len() && i != j implies after.hit[i]
            != after.hit[j] by {
            let n = before.hit.len() as int;
            if i == n {
                assert(after.hit[j] == before.hit[j]);
                assert(before.hit.contains(before.hit[j]));
            } else if j == n {
                assert(after.hit[i] == before.hit[i]);
                assert(before.hit.contains(before.hit[i]));
            } else {
                assert(after.hit[i] == before.hit[i]);
                assert(after.hit[j] == before.hit[j]);
            }
        }
    }
}

/// A projectile that has hit the target once never hits it again, and a
/// spent projectile hits nothing more.
pub proof fn law_no_second_hit(p: ProjectileState, target: u64, other: u64)
    ensures
        ({
            let (q, ok) = spec_register_hit(p, target);
            &&& ok ==> !spec_register_hit(q, target).1
            &&& q.consumed ==> !spec_register_hit(q, other).1
        }),
{
    let (q, ok) = spec_register_hit(p, target);
    if ok {
        assert(q.hit[q.hit.len() - 1] == target);
    }
}

/// Projectiles never hurt their own side, nor anything without health, and
/// such a collision leaves the projectile as it was.
pub proof fn law_no_friendly_fire(p: ProjectileState, side: Faction, target: u64, other: Option<Faction>)
    requires
        other == Some(side) || other is None,
    ensures
        spec_collision(p, side, target, other) == (p, Collision::Ignored),
{
}

/// A fresh projectile with `pierce` points of pierce hits at most `pierce + 1`
/// targets over any sequence of collisions: as long as the budget holds,
/// the targets hit and the hits remaining add up to its start.
pub proof fn law_pierce_budget(p: ProjectileState, pierce: u32)
    requires
        p.wf(),
        p.hit.len() + p.remaining_hits == (if pierce == u32::MAX {
            u32::MAX as int
        } else {
            pierce + 1
        }),
    ensures
        p.hit.len() <= pierce as int + 1,
{
}

} // verus!
