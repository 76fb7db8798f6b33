use bow_rogue::faction::Faction;
use bow_rogue::projectile::{projectile_collision, Collision, Projectile};

fn projectile(remaining_hits: u32) -> Projectile {
    Projectile {
        owner: 0,
        owner_weapon: 0,
        remaining_hits,
        ricochet: 0,
        hit: Vec::new(),
        consumed: false,
    }
}

#[test]
fn non_piercing_projectile_is_consumed_by_first_unique_target() {
    let mut projectile = projectile(1);
    let first = 1u64;
    let second = 2u64;

    assert!(projectile.try_register_hit(first));
    assert!(projectile.consumed);
    assert!(!projectile.try_register_hit(second));
}

#[test]
fn piercing_projectile_hits_each_target_at_most_once() {
    let mut projectile = projectile(2);
    let first = 1u64;
    let second = 2u64;

    assert!(projectile.try_register_hit(first));
    assert!(!projectile.try_register_hit(first));
    assert!(!projectile.consumed);
    assert!(projectile.try_register_hit(second));
    assert!(projectile.consumed);
}

#[test]
fn new_projectile_budget_is_pierce_plus_one() {
    let p = Projectile::new(7, 8, 2);
    assert_eq!(p.owner, 7);
    assert_eq!(p.owner_weapon, 8);
    assert_eq!(p.remaining_hits, 3);
    assert_eq!(p.ricochet, 0);
    assert!(p.hit.is_empty());
    assert!(!p.consumed);
    let q = Projectile::new(0, 0, u32::MAX);
    assert_eq!(q.remaining_hits, u32::MAX);
}

#[test]
fn register_records_target_and_spends_budget() {
    let mut p = Projectile::new(1, 2, 1);
    assert!(p.try_register_hit(10));
    assert_eq!(p.hit, vec![10]);
    assert_eq!(p.remaining_hits, 1);
    assert!(p.try_register_hit(11));
    assert_eq!(p.hit, vec![10, 11]);
    assert_eq!(p.remaining_hits, 0);
    assert!(p.consumed);
    assert!(!p.try_register_hit(12));
    assert_eq!(p.hit, vec![10, 11]);
}

#[test]
fn budget_bounds_distinct_targets() {
    let mut p = Projectile::new(1, 2, 3);
    let mut hits = 0;
    for target in 0..20u64 {
        if p.try_register_hit(target % 7) {
            hits += 1;
        }
    }
    assert_eq!(hits, 4);
    assert_eq!(p.hit.len() as u32 + p.remaining_hits, 4);
}

#[test]
fn collision_ignores_walls_and_friends() {
    let mut p = Projectile::new(1, 2, 0);
    assert_eq!(projectile_collision(&mut p, Faction::Player, 5, None), Collision::Ignored);
    assert_eq!(
        projectile_collision(&mut p, Faction::Player, 5, Some(Faction::Player)),
        Collision::Ignored
    );
    assert!(p.hit.is_empty());
    assert_eq!(
        projectile_collision(&mut p, Faction::Player, 5, Some(Faction::Enemy)),
        Collision::Hit { despawn: true }
    );
    assert_eq!(
        projectile_collision(&mut p, Faction::Player, 6, Some(Faction::Enemy)),
        Collision::Ignored
    );
}

#[test]
fn piercing_collision_keeps_projectile_alive() {
    let mut p = Projectile::new(1, 2, 1);
    assert_eq!(
        projectile_collision(&mut p, Faction::Enemy, 5, Some(Faction::Player)),
        Collision::Hit { despawn: false }
    );
    assert_eq!(
        projectile_collision(&mut p, Faction::Enemy, 5, Some(Faction::Player)),
        Collision::Ignored
    );
    assert_eq!(
        projectile_collision(&mut p, Faction::Enemy, 6, Some(Faction::Player)),
        Collision::Hit { despawn: true }
    );
}

#[test]
fn factions_are_hostile_only_across_sides() {
    assert!(Faction::Player.is_hostile_to(Faction::Enemy));
    assert!(Faction::Enemy.is_hostile_to(Faction::Player));
    assert!(!Faction::Player.is_hostile_to(Faction::Player));
    assert!(!Faction::Enemy.is_hostile_to(Faction::Enemy));
    assert_eq!(Faction::default(), Faction::Player);
}
