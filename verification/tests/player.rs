use bow_rogue::player::{is_pressed, movement_axis, Action, Binding, Player};

#[test]
fn fresh_player_starts_at_level_one() {
    let p = Player::initialize();
    assert_eq!((p.level, p.xp, p.xp_to_next), (1, 0, 10));
    assert_eq!(Player::XP_PER_KILL, 1);
}

#[test]
fn gaining_exactly_the_threshold_levels_up_once() {
    let mut p = Player::initialize();
    assert_eq!(p.gain_xp(10), 1);
    assert_eq!((p.level, p.xp, p.xp_to_next), (2, 0, 15));
}

#[test]
fn large_grants_level_up_repeatedly() {
    let mut p = Player::initialize();
    // 10 + 15 + 20 = 45, 7 left over below 25
    assert_eq!(p.gain_xp(52), 3);
    assert_eq!((p.level, p.xp, p.xp_to_next), (4, 7, 25));
}

#[test]
fn below_threshold_only_accumulates() {
    let mut p = Player::initialize();
    assert_eq!(p.gain_xp(Player::XP_PER_KILL), 0);
    assert_eq!((p.level, p.xp, p.xp_to_next), (1, 1, 10));
    assert_eq!(p.gain_xp(0), 0);
    assert_eq!((p.level, p.xp, p.xp_to_next), (1, 1, 10));
}

#[test]
fn zero_threshold_is_raised_to_one() {
    let mut p = Player { level: 1, xp: 0, xp_to_next: 0 };
    assert_eq!(p.gain_xp(0), 0);
    assert_eq!((p.level, p.xp, p.xp_to_next), (1, 0, 1));
    assert_eq!(p.gain_xp(1), 1);
    assert_eq!((p.level, p.xp, p.xp_to_next), (2, 0, 6));
}

#[test]
fn saturates_at_the_top() {
    let mut p = Player { level: u32::MAX, xp: u32::MAX - 1, xp_to_next: u32::MAX };
    assert_eq!(p.gain_xp(5), 1);
    assert_eq!((p.level, p.xp, p.xp_to_next), (u32::MAX, 0, u32::MAX));
}

#[test]
fn granting_in_parts_equals_granting_at_once() {
    let mut a = Player::initialize();
    let mut b = Player::initialize();
    let parts = a.gain_xp(13) + a.gain_xp(29) + a.gain_xp(40);
    let once = b.gain_xp(82);
    assert_eq!(parts, once);
    assert_eq!((a.level, a.xp, a.xp_to_next), (b.level, b.xp, b.xp_to_next));
    assert!(a.xp < a.xp_to_next);
}

#[test]
fn kills_one_at_a_time_reach_level_two_after_ten() {
    let mut p = Player::initialize();
    let mut gained = 0;
    for _ in 0..9 {
        gained += p.gain_xp(Player::XP_PER_KILL);
    }
    assert_eq!(gained, 0);
    assert_eq!(p.gain_xp(Player::XP_PER_KILL), 1);
    assert_eq!(p.level, 2);
}

#[test]
fn movement_directions() {
    assert_eq!(Action::Up.direction(), Some((0, 1)));
    assert_eq!(Action::Down.direction(), Some((0, -1)));
    assert_eq!(Action::Left.direction(), Some((-1, 0)));
    assert_eq!(Action::Right.direction(), Some((1, 0)));
    assert_eq!(Action::Ability1.direction(), None);
    assert_eq!(Action::Ultimate.direction(), None);
}

#[test]
fn movement_axis_sums_each_direction_once() {
    assert_eq!(movement_axis(&vec![]), (0, 0));
    assert_eq!(movement_axis(&vec![Action::Up, Action::Right]), (1, 1));
    assert_eq!(movement_axis(&vec![Action::Up, Action::Up, Action::Ability1]), (0, 1));
    assert_eq!(movement_axis(&vec![Action::Left, Action::Right, Action::Down]), (0, -1));
    assert!(is_pressed(&vec![Action::Ultimate], Action::Ultimate));
    assert!(!is_pressed(&vec![Action::Ultimate], Action::Up));
}

#[test]
fn default_input_map_binds_every_action() {
    let m = Player::default_input_map();
    assert_eq!(m.len(), 17);
    assert_eq!(m[0], (Action::Up, Binding::ArrowUp));
    assert_eq!(m[14], (Action::Ability1, Binding::MouseLeft));
    assert_eq!(m[16], (Action::Ultimate, Binding::GamepadLeftTrigger2));
    for a in [Action::Up, Action::Down, Action::Left, Action::Right, Action::Ability1, Action::Ultimate] {
        assert!(m.iter().any(|(b, _)| *b == a));
    }
    for i in 0..m.len() {
        for j in 0..m.len() {
            if i != j {
                assert_ne!(m[i].1, m[j].1);
            }
        }
    }
    assert_eq!(m.iter().filter(|(a, _)| a.direction().is_some()).count(), 12);
}
