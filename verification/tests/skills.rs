use bow_rogue::ability::{deal_ability_change, Abilities, Ejection, Forward, Multiple, Oblique, Pierce};
use bow_rogue::skill::{
    select_skill, skill_key_choice, AbilityType, KeyChoice, PendingLevelUps, SkillChoices,
    SkillId, SkillSelection,
};

#[test]
fn skill_texts() {
    assert_eq!(SkillId::RapidFire.name(), "快速装填");
    assert_eq!(SkillId::CriticalFocus.name(), "致命专注");
    assert_eq!(SkillId::Pierce.description(), "箭矢额外贯穿 1 个敌人");
    assert_eq!(SkillId::Vitality.description(), "最大生命 +18%，并回复增加值");
}

#[test]
fn skill_abilities() {
    assert_eq!(SkillId::Multishot.ability(), vec![(AbilityType::Forward, 1)]);
    assert_eq!(SkillId::Pierce.ability(), vec![(AbilityType::Pierce, 1)]);
    assert!(SkillId::RapidFire.ability().is_empty());
    assert!(SkillId::FleetFoot.ability().is_empty());
}

#[test]
fn default_offer() {
    let c = SkillChoices::default();
    assert_eq!(c.pick(0), SkillId::RapidFire);
    assert_eq!(c.pick(1), SkillId::PowerShot);
    assert_eq!(c.pick(2), SkillId::Multishot);
}

#[test]
fn keys_on_the_skill_screen() {
    assert_eq!(skill_key_choice(true, true, false, false), KeyChoice::Refresh);
    assert_eq!(skill_key_choice(false, false, true, true), KeyChoice::Pick(1));
    assert_eq!(skill_key_choice(false, false, false, true), KeyChoice::Pick(2));
    assert_eq!(skill_key_choice(false, false, false, false), KeyChoice::Nothing);
}

#[test]
fn pending_level_ups_are_chosen_one_by_one() {
    let mut pending = PendingLevelUps(0);
    assert_eq!(select_skill(&mut pending, true, false, false), SkillSelection::Ignored);
    pending.open_selection();
    assert_eq!(pending.0, 1);
    pending.0 = 3;
    pending.open_selection();
    assert_eq!(pending.0, 3);
    assert_eq!(select_skill(&mut pending, true, false, false), SkillSelection::Applied { resume: false });
    assert_eq!(select_skill(&mut pending, false, false, false), SkillSelection::Ignored);
    assert_eq!(select_skill(&mut pending, true, true, false), SkillSelection::Ignored);
    assert_eq!(pending.0, 2);
    assert_eq!(select_skill(&mut pending, true, true, true), SkillSelection::Applied { resume: false });
    assert_eq!(select_skill(&mut pending, true, false, true), SkillSelection::Applied { resume: true });
    assert_eq!(pending.0, 0);
    assert_eq!(select_skill(&mut pending, true, false, false), SkillSelection::Ignored);
    pending.0 = 4;
    pending.reset();
    assert_eq!(pending.0, 0);
}

fn none() -> Abilities {
    Abilities { forward: None, oblique: None, multiple: None, pierce: None, ejection: None }
}

#[test]
fn ability_counters_change() {
    let mut f = Forward::default();
    assert_eq!(f.0, 1);
    f.change(2);
    assert_eq!(f.0, 3);
    let mut o = Oblique(0);
    o.change(4);
    assert_eq!(o.0, 4);
    let mut m = Multiple(1);
    m.change(1);
    assert_eq!(m.0, 2);
    let mut p = Pierce(0);
    p.change(1);
    assert_eq!(p.0, 1);
    let mut e = Ejection(5);
    e.change(0);
    assert_eq!(e.0, 5);
}

#[test]
fn changes_add_to_carried_counters() {
    let mut a = none();
    a.forward = Some(Forward(1));
    a.pierce = Some(Pierce(2));
    deal_ability_change(
        &mut a,
        &vec![(AbilityType::Forward, 1), (AbilityType::Pierce, 3), (AbilityType::Forward, 2)],
    );
    assert_eq!(a.forward.as_ref().map(|c| c.0), Some(4));
    assert_eq!(a.pierce.as_ref().map(|c| c.0), Some(5));
    assert!(a.oblique.is_none() && a.multiple.is_none() && a.ejection.is_none());
}

#[test]
fn missing_counters_take_the_last_amount() {
    let mut a = none();
    deal_ability_change(
        &mut a,
        &vec![(AbilityType::Ejection, 1), (AbilityType::Multiple, 2), (AbilityType::Ejection, 7)],
    );
    assert_eq!(a.ejection.as_ref().map(|c| c.0), Some(7));
    assert_eq!(a.multiple.as_ref().map(|c| c.0), Some(2));
    assert!(a.forward.is_none());
}

#[test]
fn random_offers_hold_three_different_skills() {
    for _ in 0..200 {
        let [a, b, c] = SkillId::random_choices();
        assert!(a != b && a != c && b != c);
    }
    assert_eq!(SkillId::skill_at(0), SkillId::RapidFire);
    assert_eq!(SkillId::skill_at(6), SkillId::CriticalFocus);
}
