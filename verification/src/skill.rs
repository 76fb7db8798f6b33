//! Upgrades chosen on level-up: the skills on offer, the ability counters
//! they raise, and the count of level-ups still waiting for a choice.

use vstd::prelude::*;

verus! {

/// `rand::seq::index::sample(&mut rand::rng(), length, amount)`: `amount`
/// distinct indices drawn from `0..length` with the thread-local generator,
/// returned as a `Vec`. It panics when `amount > length`. Which indices come
/// out, and in what order, is chance; the contract claims only that there
/// are `amount` of them, all below `length` and all different.
#[verifier::external_body]
fn sample_indices(length: usize, amount: usize) -> (r: Vec<usize>)
    requires
        amount <= length,
    ensures
        r@.len() == amount,
        forall|i: int| 0 <= i < r@.len() ==> r@[i] < length,
        r@.no_duplicates(),
{
    rand::seq::index::sample(&mut rand::rng(), length, amount).into_vec()
}

/// The upgrades a player can choose from.
#[derive(PartialEq, Eq, Structural, Clone, Copy, Debug)]
pub enum SkillId {
    RapidFire,
    PowerShot,
    Multishot,
    Pierce,
    Vitality,
    FleetFoot,
    CriticalFocus,
}

/// Counters of a weapon's projectile abilities.
#[derive(PartialEq, Eq, Structural, Clone, Copy, Debug)]
pub enum AbilityType {
    /// Arrows shot straight ahead.
    Forward,
    /// Arrows shot at an angle.
    Oblique,
    /// Repeated casts.
    Multiple,
    /// Ricochets.
    Ejection,
    /// Targets passed through.
    Pierce,
}

pub open spec fn spec_skill_name(s: SkillId) -> Seq<char> {
    match s {
        SkillId::RapidFire => "快速装填"@,
        SkillId::PowerShot => "强力射击"@,
        SkillId::Multishot => "多重箭"@,
        SkillId::Pierce => "贯穿"@,
        SkillId::Vitality => "活力"@,
        SkillId::FleetFoot => "轻盈步伐"@,
        SkillId::CriticalFocus => "致命专注"@,
    }
}

pub open spec fn spec_skill_description(s: SkillId) -> Seq<char> {
    match s {
        SkillId::RapidFire => "攻击间隔 -12%"@,
        SkillId::PowerShot => "武器伤害 +20%"@,
        SkillId::Multishot => "投射物 +1，增加扩散角"@,
        SkillId::Pierce => "箭矢额外贯穿 1 个敌人"@,
        SkillId::Vitality => "最大生命 +18%，并回复增加值"@,
        SkillId::FleetFoot => "移动速度 +10%"@,
        SkillId::CriticalFocus => "暴击率 +8%，暴伤 +10%"@,
    }
}

/// The ability counters a skill raises: one more straight arrow for
/// Multishot, one more pierced target for Pierce, none for the others.
pub open spec fn spec_skill_abilities(s: SkillId) -> Seq<(AbilityType, u32)> {
    match s {
        SkillId::Multishot => seq![(AbilityType::Forward, 1u32)],
        SkillId::Pierce => seq![(AbilityType::Pierce, 1u32)],
        _ => Seq::empty(),
    }
}

/// Three distinct positions of the seven-skill list.
pub open spec fn valid_draw(draw: Seq<usize>) -> bool {
    &&& draw.len() == 3
    &&& forall|i: int| 0 <= i < 3 ==> draw[i] < 7
    &&& draw[0] != draw[1] && draw[0] != draw[2] && draw[1] != draw[2]
}

/// The skills in their listed order: RapidFire, PowerShot, Multishot,
/// Pierce, Vitality, FleetFoot, CriticalFocus.
pub open spec fn spec_skill_at(i: int) -> SkillId {
    if i == 0 {
        SkillId::RapidFire
    } else if i == 1 {
        SkillId::PowerShot
    } else if i == 2 {
        SkillId::Multishot
    } else if i == 3 {
        SkillId::Pierce
    } else if i == 4 {
        SkillId::Vitality
    } else if i == 5 {
        SkillId::FleetFoot
    } else {
        SkillId::CriticalFocus
    }
}

impl SkillId {
    /// The skill at position `i` of the list.
    pub fn skill_at(i: usize) -> (r: SkillId)
        requires
            i < 7,
        ensures
            r == spec_skill_at(i as int),
    {
        if i == 0 {
            SkillId::RapidFire
        } else if i == 1 {
            SkillId::PowerShot
        } else if i == 2 {
            SkillId::Multishot
        } else if i == 3 {
            SkillId::Pierce
        } else if i == 4 {
            SkillId::Vitality
        } else if i == 5 {
            SkillId::FleetFoot
        } else {
            SkillId::CriticalFocus
        }
    }

    /// Draws an offer of three different skills at random.
    pub fn random_choices() -> (r: [SkillId; 3])
        ensures
            r@[0] != r@[1] && r@[0] != r@[2] && r@[1] != r@[2],
            exists|draw: Seq<usize>|
                valid_draw(draw) && r@ == seq![
                    spec_skill_at(draw[0] as int),
                    spec_skill_at(draw[1] as int),
                    spec_skill_at(draw[2] as int),
                ],
    {
        let picks = sample_indices(7, 3);
        let r = Self::offer_from_draw(&picks);
        assert(valid_draw(picks@));
        r
    }

    /// The offer that three distinct positions of the skill list stand for.
    pub fn offer_from_draw(draw: &Vec<usize>) -> (r: [SkillId; 3])
        requires
            valid_draw(draw@),
        ensures
            r@ == seq![
                spec_skill_at(draw@[0] as int),
                spec_skill_at(draw@[1] as int),
                spec_skill_at(draw@[2] as int),
            ],
            r@[0] != r@[1] && r@[0] != r@[2] && r@[1] != r@[2],
    {
        proof {
            law_skill_list_complete(SkillId::RapidFire);
        }
        let r = [Self::skill_at(draw[0]), Self::skill_at(draw[1]), Self::skill_at(draw[2])];
        assert(r@ =~= seq![
            spec_skill_at(draw@[0] as int),
            spec_skill_at(draw@[1] as int),
            spec_skill_at(draw@[2] as int),
        ]);
        r
    }

    /// The name shown on the skill card.
    pub fn name(self) -> (r: &'static str)
        ensures
            r@ == spec_skill_name(self),
    {
        match self {
            SkillId::RapidFire => "快速装填",
            SkillId::PowerShot => "强力射击",
            SkillId::Multishot => "多重箭",
            SkillId::Pierce => "贯穿",
            SkillId::Vitality => "活力",
            SkillId::FleetFoot => "轻盈步伐",
            SkillId::CriticalFocus => "致命专注",
        }
    }

    /// The effect text shown on the skill card.
    pub fn description(self) -> (r: &'static str)
        ensures
            r@ == spec_skill_description(self),
    {
        match self {
            SkillId::RapidFire => "攻击间隔 -12%",
            SkillId::PowerShot => "武器伤害 +20%",
            SkillId::Multishot => "投射物 +1，增加扩散角",
            SkillId::Pierce => "箭矢额外贯穿 1 个敌人",
            SkillId::Vitality => "最大生命 +18%，并回复增加值",
            SkillId::FleetFoot => "移动速度 +10%",
            SkillId::CriticalFocus => "暴击率 +8%，暴伤 +10%",
        }
    }

    /// The ability changes the skill applies to the player's weapon.
    pub fn ability(self) -> (r: Vec<(AbilityType, u32)>)
        ensures
            r@ == spec_skill_abilities(self),
    {
        match self {
            SkillId::Multishot => {
                let mut v = Vec::new();
                v.push((AbilityType::Forward, 1u32));
                v
            },
            SkillId::Pierce => {
                let mut v = Vec::new();
                v.push((AbilityType::Pierce, 1u32));
                v
            },
            _ => Vec::new(),
        }
    }
}


/// The three skills on offer.
pub struct SkillChoices(pub [SkillId; 3]);

/// Before the first draw the offer is RapidFire, PowerShot, Multishot.
impl Default for SkillChoices {
    fn default() -> (r: Self)
        ensures
            r.0@ == seq![SkillId::RapidFire, SkillId::PowerShot, SkillId::Multishot],
    {
        SkillChoices([SkillId::RapidFire, SkillId::PowerShot, SkillId::Multishot])
    }
}

/// Level-ups whose upgrade has not been chosen yet; several levels gained at
/// once are chosen one after another.
pub struct PendingLevelUps(pub u32);

/// What a choice of a skill comes to.
#[derive(PartialEq, Eq, Structural, Clone, Copy, Debug)]
pub enum SkillSelection {
    /// Nothing is applied and nothing is consumed.
    Ignored,
    /// The skill is applied and one pending level-up is consumed; with
    /// `resume` none is left and play goes on, else a new offer is drawn.
    Applied { resume: bool },
}

/// What the keys pressed on the skill screen ask for.
#[derive(PartialEq, Eq, Structural, Clone, Copy, Debug)]
pub enum KeyChoice {
    /// Nothing.
    Nothing,
    /// Draw a new offer (`F`).
    Refresh,
    /// Take the card at this index (`1`, `2`, `3`).
    Pick(usize),
}

impl PendingLevelUps {
    /// No level-up is pending when a run starts.
    pub fn reset(&mut self)
        ensures
            final(self).0 == 0,
    {
        self.0 = 0;
    }

    /// Opening the skill screen always offers at least one choice, also when
    /// the screen is entered without a level-up.
    pub fn open_selection(&mut self)
        ensures
            final(self).0 == (if old(self).0 >= 1 {
                old(self).0
            } else {
                1
            }),
    {
        if self.0 < 1 {
            self.0 = 1;
        }
    }
}

/// A choice of a skill with `pending` level-ups waiting: the level-ups left
/// after it, and what it comes to. Nothing happens when no level-up is
/// pending, when there is no single player, or when the skill acts on a
/// weapon (`needs_weapon`) and the player has none. Otherwise one pending
/// level-up is consumed, and play resumes once none is left.
pub open spec fn spec_select_skill(
    pending: u32,
    player_found: bool,
    needs_weapon: bool,
    weapon_found: bool,
) -> (u32, SkillSelection) {
    if pending > 0 && player_found && (needs_weapon ==> weapon_found) {
        let left = (pending - 1) as u32;
        (left, SkillSelection::Applied { resume: left == 0 })
    } else {
        (pending, SkillSelection::Ignored)
    }
}

/// Decides a choice of a skill (see [`spec_select_skill`]).
pub fn select_skill(
    pending: &mut PendingLevelUps,
    player_found: bool,
    needs_weapon: bool,
    weapon_found: bool,
) -> (r: SkillSelection)
    ensures
        (final(pending).0, r) == spec_select_skill(
            old(pending).0,
            player_found,
            needs_weapon,
            weapon_found,
        ),
{
    if pending.0 == 0 {
        return SkillSelection::Ignored;
    }
    if !player_found {
        return SkillSelection::Ignored;
    }
    if needs_weapon && !weapon_found {
        return SkillSelection::Ignored;
    }
    pending.0 = pending.0 - 1;
    SkillSelection::Applied { resume: pending.0 == 0 }
}

/// The keys pressed this frame on the skill screen: `F` refreshes the offer
/// and wins over the digits; otherwise the first of `1`, `2`, `3` pressed
/// picks the card at index 0, 1, 2.
pub fn skill_key_choice(refresh: bool, digit1: bool, digit2: bool, digit3: bool) -> (r: KeyChoice)
    ensures
        r == (if refresh {
            KeyChoice::Refresh
        } else if digit1 {
            KeyChoice::Pick(0)
        } else if digit2 {
            KeyChoice::Pick(1)
        } else if digit3 {
            KeyChoice::Pick(2)
        } else {
            KeyChoice::Nothing
        }),
{
    if refresh {
        KeyChoice::Refresh
    } else if digit1 {
        KeyChoice::Pick(0)
    } else if digit2 {
        KeyChoice::Pick(1)
    } else if digit3 {
        KeyChoice::Pick(2)
    } else {
        KeyChoice::Nothing
    }
}

impl SkillChoices {
    /// The skill on the card at `index`.
    pub fn pick(&self, index: usize) -> (r: SkillId)
        requires
            index < 3,
        ensures
            r == self.0@[index as int],
    {
        self.0[index]
    }
}

/// `n` choices in a row, each of which the player can take, starting from
/// `pending` level-ups: the level-ups left, and what each choice came to.
pub open spec fn run_choices(pending: u32, n: nat) -> (u32, Seq<SkillSelection>)
    decreases n,
{
    if n == 0 {
        (pending, Seq::empty())
    } else {
        let (left, r) = spec_select_skill(pending, true, false, false);
        let (rest, rs) = run_choices(left, (n - 1) as nat);
        (rest, seq![r] + rs)
    }
}

/// With `k` level-ups pending, exactly `k` choices are taken: each but the
/// last draws a new offer, the last resumes play, and any further choice is
/// ignored.
pub proof fn law_one_choice_per_level_up(k: u32, n: nat)
    ensures
        ({
            let (left, rs) = run_choices(k, n);
            &&& rs.len() == n
            &&& left == (if n <= k {
                k - n
            } else {
                0
            })
            &&& forall|i: int|
                0 <= i < n ==> #[trigger] rs[i] == (if i < k {
                    SkillSelection::Applied { resume: i == k - 1 }
                } else {
                    SkillSelection::Ignored
                })
        }),
    decreases n,
{
    if n > 0 {
        let (left, r) = spec_select_skill(k, true, false, false);
        law_one_choice_per_level_up(left, (n - 1) as nat);
        let (rest, rs) = run_choices(left, (n - 1) as nat);
        let all = seq![r] + rs;
        assert forall|i: int| 0 < i < n implies all[i] == rs[i - 1] by {}
    }
}


/// The skill list holds every skill, each at exactly one of its seven
/// positions: distinct positions give distinct skills.
pub proof fn law_skill_list_complete(s: SkillId)
    ensures
        exists|i: int| 0 <= i < 7 && spec_skill_at(i) == s,
        forall|i: int, j: int|
            0 <= i < 7 && 0 <= j < 7 && i != j ==> spec_skill_at(i) != spec_skill_at(j),
{
    match s {
        SkillId::RapidFire => assert(spec_skill_at(0) == s),
        SkillId::PowerShot => assert(spec_skill_at(1) == s),
        SkillId::Multishot => assert(spec_skill_at(2) == s),
        SkillId::Pierce => assert(spec_skill_at(3) == s),
        SkillId::Vitality => assert(spec_skill_at(4) == s),
        SkillId::FleetFoot => assert(spec_skill_at(5) == s),
        SkillId::CriticalFocus => assert(spec_skill_at(6) == s),
    }
}

/// Every skill, CriticalFocus included, is offered by some draw of three
/// positions of the list.
pub proof fn law_every_skill_offerable(s: SkillId)
    ensures
        exists|draw: Seq<usize>|
            valid_draw(draw) && #[trigger] spec_skill_at(draw[0] as int) == s,
{
    law_skill_list_complete(s);
    let i = choose|i: int| 0 <= i < 7 && spec_skill_at(i) == s;
    let a: usize = if i == 0 { 1 } else { 0 };
    let b: usize = if i == 6 { 5 } else { 6 };
    let draw = seq![i as usize, a, b];
    assert(valid_draw(draw));
    assert(spec_skill_at(draw[0] as int) == s);
}

/// An applied choice consumes exactly one pending level-up and resumes play
/// exactly when none is left, whether or not the skill needs a weapon; a
/// choice is applied exactly when a level-up is pending, the player is
/// there, and a skill that needs a weapon finds one.
pub proof fn law_selection_resumes_when_none_left(
    pending: u32,
    player_found: bool,
    needs_weapon: bool,
    weapon_found: bool,
)
    ensures
        ({
            let (left, r) = spec_select_skill(pending, player_found, needs_weapon, weapon_found);
            &&& (r is Applied) == (pending > 0 && player_found && (needs_weapon ==> weapon_found))
            &&& r is Applied ==> left == pending - 1 && r == (SkillSelection::Applied {
                resume: pending == 1,
            })
            &&& r is Ignored ==> left == pending
        }),
{
}

} // verus!
