//! Projectile ability counters of a weapon and how a list of ability
//! changes lands on them.

use vstd::prelude::*;
use crate::skill::AbilityType;

verus! {

/// Arrows shot straight ahead.
pub struct Forward(pub u32);

/// Arrows shot at an angle.
pub struct Oblique(pub u32);

/// Repeated casts.
pub struct Multiple(pub u32);

/// Targets an arrow passes through.
pub struct Pierce(pub u32);

/// Ricochets of an arrow.
pub struct Ejection(pub u32);

/// A weapon shoots one straight arrow until told otherwise.
impl Default for Forward {
    fn default() -> (r: Self)
        ensures
            r.0 == 1,
    {
        Forward(1)
    }
}

impl Forward {
    /// Adds `amount` straight arrows.
    pub fn change(&mut self, amount: u32)
        requires
            old(self).0 + amount <= u32::MAX,
        ensures
            final(self).0 == old(self).0 + amount,
    {
        self.0 = self.0 + amount;
    }
}

impl Oblique {
    /// Adds `amount` angled arrows.
    pub fn change(&mut self, amount: u32)
        requires
            old(self).0 + amount <= u32::MAX,
        ensures
            final(self).0 == old(self).0 + amount,
    {
        self.0 = self.0 + amount;
    }
}

impl Multiple {
    /// Adds `amount` repeated casts.
    pub fn change(&mut self, amount: u32)
        requires
            old(self).0 + amount <= u32::MAX,
        ensures
            final(self).0 == old(self).0 + amount,
    {
        self.0 = self.0 + amount;
    }
}

impl Pierce {
    /// Adds `amount` pierced targets.
    pub fn change(&mut self, amount: u32)
        requires
            old(self).0 + amount <= u32::MAX,
        ensures
            final(self).0 == old(self).0 + amount,
    {
        self.0 = self.0 + amount;
    }
}

impl Ejection {
    /// Adds `amount` ricochets.
    pub fn change(&mut self, amount: u32)
        requires
            old(self).0 + amount <= u32::MAX,
        ensures
            final(self).0 == old(self).0 + amount,
    {
        self.0 = self.0 + amount;
    }
}

/// The ability counters an entity carries; `None` where it carries none of that kind.
pub struct Abilities {
    pub forward: Option<Forward>,
    pub oblique: Option<Oblique>,
    pub multiple: Option<Multiple>,
    pub pierce: Option<Pierce>,
    pub ejection: Option<Ejection>,
}

impl Abilities {
    /// The counter of kind `t`, if the entity carries one.
    pub open spec fn count(&self, t: AbilityType) -> Option<u32> {
        match t {
            AbilityType::Forward => match self.forward {
                Some(c) => Some(c.0),
                None => None,
            },
            AbilityType::Oblique => match self.oblique {
                Some(c) => Some(c.0),
                None => None,
            },
            AbilityType::Multiple => match self.multiple {
                Some(c) => Some(c.0),
                None => None,
            },
            AbilityType::Pierce => match self.pierce {
                Some(c) => Some(c.0),
                None => None,
            },
            AbilityType::Ejection => match self.ejection {
                Some(c) => Some(c.0),
                None => None,
            },
        }
    }

    /// Adds `amount` to the counter of kind `t`, which the entity carries.
    fn add(&mut self, t: AbilityType, amount: u32)
        requires
            old(self).count(t) is Some,
            old(self).count(t).unwrap() + amount <= u32::MAX,
        ensures
            final(self).count(t) == Some((old(self).count(t).unwrap() + amount) as u32),
            forall|u: AbilityType| u != t ==> final(self).count(u) == old(self).count(u),
    {
        match t {
            AbilityType::Forward => {
                let mut c = self.forward.take().unwrap();
                c.change(amount);
                self.forward = Some(c);
            },
            AbilityType::Oblique => {
                let mut c = self.oblique.take().unwrap();
                c.change(amount);
                self.oblique = Some(c);
            },
            AbilityType::Multiple => {
                let mut c = self.multiple.take().unwrap();
                c.change(amount);
                self.multiple = Some(c);
            },
            AbilityType::Pierce => {
                let mut c = self.pierce.take().unwrap();
                c.change(amount);
                self.pierce = Some(c);
            },
            AbilityType::Ejection => {
                let mut c = self.ejection.take().unwrap();
                c.change(amount);
                self.ejection = Some(c);
            },
        }
    }

    /// Gives the entity a counter of kind `t` holding `amount`, replacing any.
    fn insert(&mut self, t: AbilityType, amount: u32)
        ensures
            final(self).count(t) == Some(amount),
            forall|u: AbilityType| u != t ==> final(self).count(u) == old(self).count(u),
    {
        match t {
            AbilityType::Forward => self.forward = Some(Forward(amount)),
            AbilityType::Oblique => self.oblique = Some(Oblique(amount)),
            AbilityType::Multiple => self.multiple = Some(Multiple(amount)),
            AbilityType::Pierce => self.pierce = Some(Pierce(amount)),
            AbilityType::Ejection => self.ejection = Some(Ejection(amount)),
        }
    }

    /// Whether the entity carries a counter of kind `t`.
    fn has(&self, t: AbilityType) -> (r: bool)
        ensures
            r == (self.count(t) is Some),
    {
        match t {
            AbilityType::Forward => self.forward.is_some(),
            AbilityType::Oblique => self.oblique.is_some(),
            AbilityType::Multiple => self.multiple.is_some(),
            AbilityType::Pierce => self.pierce.is_some(),
            AbilityType::Ejection => self.ejection.is_some(),
        }
    }
}

/// The total of the amounts of kind `t` in `changes`.
pub open spec fn sum_for(changes: Seq<(AbilityType, u32)>, t: AbilityType) -> nat
    decreases changes.len(),
{
    if changes.len() == 0 {
        0
    } else {
        sum_for(changes.drop_last(), t) + (if changes.last().0 == t {
            changes.last().1 as nat
        } else {
            0
        })
    }
}

/// The last amount of kind `t` in `changes`, if any.
pub open spec fn last_for(changes: Seq<(AbilityType, u32)>, t: AbilityType) -> Option<u32>
    decreases changes.len(),
{
    if changes.len() == 0 {
        None
    } else if changes.last().0 == t {
        Some(changes.last().1)
    } else {
        last_for(changes.drop_last(), t)
    }
}

/// The counter of kind `t` after `changes` land on an entity that carried
/// `before`: a counter it carried grows by every amount of its kind; a
/// counter it lacked is inserted, and as the insertions are deferred, the
/// last one of the kind is the one that stays.
pub open spec fn after_changes(
    before: Option<u32>,
    changes: Seq<(AbilityType, u32)>,
    t: AbilityType,
) -> Option<u32> {
    match before {
        Some(v) => Some((v + sum_for(changes, t)) as u32),
        None => last_for(changes, t),
    }
}

/// The amounts of a kind over a prefix never exceed those over the whole list.
proof fn lemma_sum_prefix(changes: Seq<(AbilityType, u32)>, i: int, t: AbilityType)
    requires
        0 <= i <= changes.len(),
    ensures
        sum_for(changes.take(i), t) <= sum_for(changes, t),
    decreases changes.len(),
{
    if i == changes.len() {
        assert(changes.take(i) =~= changes);
    } else {
        lemma_sum_prefix(changes.drop_last(), i, t);
        assert(changes.drop_last().take(i) =~= changes.take(i));
    }
}

/// Applies one ability-change message to the counters an entity carried
/// when the message was read.
pub fn deal_ability_change(abilities: &mut Abilities, changes: &Vec<(AbilityType, u32)>)
    requires
        forall|t: AbilityType|
            old(abilities).count(t) is Some ==> old(abilities).count(t).unwrap() + sum_for(
                changes@,
                t,
            ) <= u32::MAX,
    ensures
        forall|t: AbilityType|
            final(abilities).count(t) == after_changes(old(abilities).count(t), changes@, t),
{
    let ghost start = *abilities;
    let had_forward = abilities.has(AbilityType::Forward);
    let had_oblique = abilities.has(AbilityType::Oblique);
    let had_multiple = abilities.has(AbilityType::Multiple);
    let had_pierce = abilities.has(AbilityType::Pierce);
    let had_ejection = abilities.has(AbilityType::Ejection);
    let mut i: usize = 0;
    while i < changes.len()
        invariant
            i <= changes@.len(),
            had_forward == (start.count(AbilityType::Forward) is Some),
            had_oblique == (start.count(AbilityType::Oblique) is Some),
            had_multiple == (start.count(AbilityType::Multiple) is Some),
            had_pierce == (start.count(AbilityType::Pierce) is Some),
            had_ejection == (start.count(AbilityType::Ejection) is Some),
            forall|t: AbilityType|
                start.count(t) is Some ==> start.count(t).unwrap() + sum_for(changes@, t)
                    <= u32::MAX,
            forall|t: AbilityType|
                abilities.count(t) == after_changes(start.count(t), changes@.take(i as int), t),
        decreases changes@.len() - i,
    {
        let (t, amount) = changes[i];
        let had = match t {
            AbilityType::Forward => had_forward,
            AbilityType::Oblique => had_oblique,
            AbilityType::Multiple => had_multiple,
            AbilityType::Pierce => had_pierce,
            AbilityType::Ejection => had_ejection,
        };
        proof {
            let next = changes@.take(i + 1);
            assert(next.drop_last() =~= changes@.take(i as int));
            assert(next.last() == (t, amount));
            lemma_sum_prefix(changes@, i + 1, t);
        }
        if had {
            abilities.add(t, amount);
        } else {
            abilities.insert(t, amount);
        }
        i = i + 1;
        proof {
            assert forall|u: AbilityType|
                abilities.count(u) == after_changes(
                    start.count(u),
                    changes@.take(i as int),
                    u,
                ) by {
                let next = changes@.take(i as int);
                assert(next.drop_last() =~= changes@.take(i - 1));
            }
        }
    }
    proof {
        assert(changes@.take(changes@.len() as int) =~= changes@);
    }
}


/// A change list with no entry of kind `t` leaves the counter of that kind
/// as it was, carried or not; a carried counter never shrinks.
pub proof fn law_untouched_kinds(before: Option<u32>, changes: Seq<(AbilityType, u32)>, t: AbilityType)
    requires
        before matches Some(v) ==> v + sum_for(changes, t) <= u32::MAX,
    ensures
        (forall|i: int| 0 <= i < changes.len() ==> (#[trigger] changes[i]).0 != t) ==> after_changes(
            before,
            changes,
            t,
        ) == before,
        before matches Some(v) ==> after_changes(before, changes, t) matches Some(w) && w >= v,
{
    if forall|i: int| 0 <= i < changes.len() ==> (#[trigger] changes[i]).0 != t {
        lemma_no_entry(changes, t);
    }
}

proof fn lemma_no_entry(changes: Seq<(AbilityType, u32)>, t: AbilityType)
    requires
        forall|i: int| 0 <= i < changes.len() ==> (#[trigger] changes[i]).0 != t,
    ensures
        sum_for(changes, t) == 0,
        last_for(changes, t) is None,
    decreases changes.len(),
{
    if changes.len() > 0 {
        let rest = changes.drop_last();
        assert forall|i: int| 0 <= i < rest.len() implies (#[trigger] rest[i]).0 != t by {
            assert(rest[i] == changes[i]);
        }
        assert(changes.last() == changes[changes.len() - 1]);
        lemma_no_entry(rest, t);
    }
}

} // verus!
