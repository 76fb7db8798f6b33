//! The player's experience track and the movement directions of the input map.

use vstd::prelude::*;

verus! {

/// `u32::saturating_add`, as a spec function.
pub open spec fn sat_add(a: u32, b: u32) -> u32 {
    if a + b > u32::MAX {
        u32::MAX
    } else {
        (a + b) as u32
    }
}

/// Pays level thresholds out of `xp` for as long as it covers the current one.
///
/// Each payment raises the level by one and the next threshold by five (both
/// saturating). The result is the level, the experience left over, the
/// threshold that is now due, and the number of levels that were gained.
pub open spec fn settle(level: u32, xp: u32, next: u32) -> (u32, u32, u32, nat)
    decreases xp,
{
    if next >= 1 && xp >= next {
        let r = settle(sat_add(level, 1), (xp - next) as u32, sat_add(next, 5));
        (r.0, r.1, r.2, r.3 + 1)
    } else {
        (level, xp, next, 0)
    }
}

/// The experience state of the player.
pub struct Player {
    pub level: u32,
    pub xp: u32,
    pub xp_to_next: u32,
}

/// What `gain_xp(amount)` makes of the player `p`, and how many levels it reports.
pub open spec fn spec_gain_xp(p: Player, amount: u32) -> (Player, nat) {
    let next = if p.xp_to_next >= 1 {
        p.xp_to_next
    } else {
        1u32
    };
    let r = settle(p.level, sat_add(p.xp, amount), next);
    (Player { level: r.0, xp: r.1, xp_to_next: r.2 }, r.3)
}

impl Player {
    /// Experience granted for each enemy killed.
    pub const XP_PER_KILL: u32 = 1;

    /// A fresh player: level 1, no experience, 10 experience to the next level.
    pub fn initialize() -> (p: Self)
        ensures
            p == (Player { level: 1, xp: 0, xp_to_next: 10 }),
    {
        Player { level: 1, xp: 0, xp_to_next: 10 }
    }

    /// Adds experience and handles consecutive level-ups; returns the number
    /// of levels gained.
    pub fn gain_xp(&mut self, amount: u32) -> (levels_gained: u32)
        ensures
            *final(self) == spec_gain_xp(*old(self), amount).0,
            levels_gained == spec_gain_xp(*old(self), amount).1,
    {
        self.xp = self.xp.saturating_add(amount);
        if self.xp_to_next < 1 {
            self.xp_to_next = 1;
        }
        let ghost start = self.xp;
        let ghost target = settle(self.level, self.xp, self.xp_to_next);
        let mut levels_gained: u32 = 0;
        while self.xp >= self.xp_to_next
            invariant
                self.xp_to_next >= 1,
                levels_gained + self.xp <= start,
                start <= u32::MAX,
                ({
                    let r = settle(self.level, self.xp, self.xp_to_next);
                    &&& r.0 == target.0
                    &&& r.1 == target.1
                    &&& r.2 == target.2
                    &&& r.3 + levels_gained == target.3
                }),
            decreases self.xp,
        {
            self.xp = self.xp - self.xp_to_next;
            self.level = self.level.saturating_add(1);
            self.xp_to_next = self.xp_to_next.saturating_add(5);
            levels_gained = levels_gained + 1;
        }
        levels_gained
    }
}


/// `a` capped at `u32::MAX`.
pub open spec fn cap_u32(a: int) -> int {
    if a > u32::MAX {
        u32::MAX as int
    } else {
        a
    }
}

/// The experience paid for `count` consecutive levels when the first costs `next`.
pub open spec fn paid(next: u32, count: nat) -> int
    decreases count,
{
    if count == 0 {
        0
    } else {
        next + paid(sat_add(next, 5), (count - 1) as nat)
    }
}

proof fn lemma_paid_nonnegative(next: u32, count: nat)
    ensures
        paid(next, count) >= 0,
    decreases count,
{
    if count > 0 {
        lemma_paid_nonnegative(sat_add(next, 5), (count - 1) as nat);
    }
}

proof fn lemma_settle_remainder(level: u32, xp: u32, next: u32)
    requires
        next >= 1,
    ensures
        settle(level, xp, next).2 >= 1,
        settle(level, xp, next).1 < settle(level, xp, next).2,
    decreases xp,
{
    if xp >= next {
        lemma_settle_remainder(sat_add(level, 1), (xp - next) as u32, sat_add(next, 5));
    }
}

proof fn lemma_settle_accounting(level: u32, xp: u32, next: u32)
    requires
        next >= 1,
    ensures
        ({
            let r = settle(level, xp, next);
            &&& r.0 == cap_u32(level + r.3)
            &&& r.2 == cap_u32(next + 5 * r.3)
            &&& r.1 + paid(next, r.3) == xp
        }),
    decreases xp,
{
    if xp >= next {
        lemma_settle_accounting(sat_add(level, 1), (xp - next) as u32, sat_add(next, 5));
        let r = settle(sat_add(level, 1), (xp - next) as u32, sat_add(next, 5));
        assert(paid(next, r.3 + 1) == next + paid(sat_add(next, 5), r.3));
    }
}

proof fn lemma_settle_more(level: u32, xp: u32, next: u32, extra: u32)
    requires
        next >= 1,
        xp + extra <= u32::MAX,
    ensures
        ({
            let r = settle(level, xp, next);
            let s = settle(r.0, (r.1 + extra) as u32, r.2);
            let t = settle(level, (xp + extra) as u32, next);
            &&& s.0 == t.0
            &&& s.1 == t.1
            &&& s.2 == t.2
            &&& r.3 + s.3 == t.3
        }),
    decreases xp,
{
    if xp >= next {
        lemma_settle_more(sat_add(level, 1), (xp - next) as u32, sat_add(next, 5), extra);
        assert(((xp + extra) as u32 - next) as u32 == ((xp - next) as u32 + extra) as u32);
    }
}

/// After any grant of experience, what is left over is below the threshold
/// of the next level, and that threshold is at least 1.
pub proof fn law_gain_xp_leaves_remainder(p: Player, amount: u32)
    ensures
        spec_gain_xp(p, amount).0.xp < spec_gain_xp(p, amount).0.xp_to_next,
        spec_gain_xp(p, amount).0.xp_to_next >= 1,
{
    let next = if p.xp_to_next >= 1 {
        p.xp_to_next
    } else {
        1u32
    };
    lemma_settle_remainder(p.level, sat_add(p.xp, amount), next);
}

/// Each level gained raises the level by one and the threshold by five (both
/// capped at `u32::MAX`), and the experience granted is exactly what the
/// thresholds took plus what is left over.
pub proof fn law_gain_xp_accounting(p: Player, amount: u32)
    ensures
        ({
            let next = if p.xp_to_next >= 1 {
                p.xp_to_next
            } else {
                1u32
            };
            let (q, gained) = spec_gain_xp(p, amount);
            &&& q.level == cap_u32(p.level + gained)
            &&& q.xp_to_next == cap_u32(next + 5 * gained)
            &&& q.xp + paid(next, gained) == sat_add(p.xp, amount)
        }),
{
    let next = if p.xp_to_next >= 1 {
        p.xp_to_next
    } else {
        1u32
    };
    lemma_settle_accounting(p.level, sat_add(p.xp, amount), next);
}

/// Experience granted in two parts leaves the player as one grant of the sum
/// does, and the levels reported by the two grants add up to those of the one.
pub proof fn law_gain_xp_in_parts(p: Player, a: u32, b: u32)
    requires
        p.xp + a + b <= u32::MAX,
    ensures
        ({
            let (q1, g1) = spec_gain_xp(p, a);
            let (q2, g2) = spec_gain_xp(q1, b);
            let (q, g) = spec_gain_xp(p, (a + b) as u32);
            q2 == q && g1 + g2 == g
        }),
{
    let next = if p.xp_to_next >= 1 {
        p.xp_to_next
    } else {
        1u32
    };
    let x = (p.xp + a) as u32;
    lemma_settle_remainder(p.level, x, next);
    lemma_settle_more(p.level, x, next, b);
    let r = settle(p.level, x, next);
    lemma_settle_accounting(p.level, x, next);
    lemma_paid_nonnegative(next, r.3);
    assert(r.1 <= x);
    assert(sat_add(p.xp, (a + b) as u32) == (x + b) as u32);
}

/// Granting no experience to a player whose experience is below the
/// threshold changes nothing and gains no level.
pub proof fn law_gain_nothing(p: Player)
    requires
        p.xp < p.xp_to_next,
    ensures
        spec_gain_xp(p, 0) == (p, 0nat),
{
}

/// Input actions of the player.
#[derive(PartialEq, Eq, Structural, Clone, Copy, Debug)]
pub enum Action {
    Up,
    Down,
    Left,
    Right,
    Ability1,
    Ultimate,
}

/// The unit step on the grid that a movement action stands for, `(x, y)`
/// with `y` pointing up; `None` for actions that do not move.
pub open spec fn spec_direction(a: Action) -> Option<(i32, i32)> {
    match a {
        Action::Up => Some((0i32, 1i32)),
        Action::Down => Some((0i32, -1i32)),
        Action::Left => Some((-1i32, 0i32)),
        Action::Right => Some((1i32, 0i32)),
        _ => None,
    }
}

/// A physical input that can be bound to an action.
#[derive(PartialEq, Eq, Structural, Clone, Copy, Debug)]
pub enum Binding {
    ArrowUp,
    ArrowDown,
    ArrowLeft,
    ArrowRight,
    KeyW,
    KeyA,
    KeyS,
    KeyD,
    KeyQ,
    KeyR,
    DPadUp,
    DPadDown,
    DPadLeft,
    DPadRight,
    GamepadWest,
    GamepadLeftTrigger2,
    MouseLeft,
}

/// The default input map, binding by binding in the order they are added:
/// arrows, WASD and the d-pad move; Q, the west face button and the left
/// mouse button trigger the ability; R and the left trigger the ultimate.
pub open spec fn spec_default_bindings() -> Seq<(Action, Binding)> {
    seq![
        (Action::Up, Binding::ArrowUp),
        (Action::Up, Binding::KeyW),
        (Action::Up, Binding::DPadUp),
        (Action::Down, Binding::ArrowDown),
        (Action::Down, Binding::KeyS),
        (Action::Down, Binding::DPadDown),
        (Action::Left, Binding::ArrowLeft),
        (Action::Left, Binding::KeyA),
        (Action::Left, Binding::DPadLeft),
        (Action::Right, Binding::ArrowRight),
        (Action::Right, Binding::KeyD),
        (Action::Right, Binding::DPadRight),
        (Action::Ability1, Binding::KeyQ),
        (Action::Ability1, Binding::GamepadWest),
        (Action::Ability1, Binding::MouseLeft),
        (Action::Ultimate, Binding::KeyR),
        (Action::Ultimate, Binding::GamepadLeftTrigger2),
    ]
}

impl Player {
    /// The default input map of the player.
    pub fn default_input_map() -> (r: Vec<(Action, Binding)>)
        ensures
            r@ == spec_default_bindings(),
    {
        let mut m: Vec<(Action, Binding)> = Vec::new();
        m.push((Action::Up, Binding::ArrowUp));
        m.push((Action::Up, Binding::KeyW));
        m.push((Action::Up, Binding::DPadUp));
        m.push((Action::Down, Binding::ArrowDown));
        m.push((Action::Down, Binding::KeyS));
        m.push((Action::Down, Binding::DPadDown));
        m.push((Action::Left, Binding::ArrowLeft));
        m.push((Action::Left, Binding::KeyA));
        m.push((Action::Left, Binding::DPadLeft));
        m.push((Action::Right, Binding::ArrowRight));
        m.push((Action::Right, Binding::KeyD));
        m.push((Action::Right, Binding::DPadRight));
        m.push((Action::Ability1, Binding::KeyQ));
        m.push((Action::Ability1, Binding::GamepadWest));
        m.push((Action::Ability1, Binding::MouseLeft));
        m.push((Action::Ultimate, Binding::KeyR));
        m.push((Action::Ultimate, Binding::GamepadLeftTrigger2));
        proof {
            assert(m@ =~= spec_default_bindings());
        }
        m
    }
}

/// Every action can be triggered: the default map binds each to some input,
/// and no input to two actions.
pub proof fn law_every_action_bound(a: Action)
    ensures
        exists|i: int|
            0 <= i < spec_default_bindings().len() && (#[trigger] spec_default_bindings()[i]).0
                == a,
        forall|i: int, j: int|
            0 <= i < spec_default_bindings().len() && 0 <= j < spec_default_bindings().len()
                && spec_default_bindings()[i].1 == spec_default_bindings()[j].1 ==> i == j,
{
    let m = spec_default_bindings();
    match a {
        Action::Up => assert(m[0].0 == a),
        Action::Down => assert(m[3].0 == a),
        Action::Left => assert(m[6].0 == a),
        Action::Right => assert(m[9].0 == a),
        Action::Ability1 => assert(m[12].0 == a),
        Action::Ultimate => assert(m[15].0 == a),
    }
}

/// The way a movement input points on the keyboard or pad: up for W, the up
/// arrow and the d-pad's up, and so on; `None` for the other inputs.
pub open spec fn binding_step(b: Binding) -> Option<(i32, i32)> {
    match b {
        Binding::ArrowUp | Binding::KeyW | Binding::DPadUp => Some((0i32, 1i32)),
        Binding::ArrowDown | Binding::KeyS | Binding::DPadDown => Some((0i32, -1i32)),
        Binding::ArrowLeft | Binding::KeyA | Binding::DPadLeft => Some((-1i32, 0i32)),
        Binding::ArrowRight | Binding::KeyD | Binding::DPadRight => Some((1i32, 0i32)),
        _ => None,
    }
}

/// Each movement input of the default map is bound to the movement action
/// that points the same way (W, the up arrow and the d-pad's up move up, S and
/// its kin down, A left, D right), every other input to a non-moving action,
/// and each of the twelve movement inputs is bound.
pub proof fn law_bindings_point_their_way(b: Binding)
    ensures
        forall|i: int|
            0 <= i < spec_default_bindings().len() ==> spec_direction(
                (#[trigger] spec_default_bindings()[i]).0,
            ) == binding_step(spec_default_bindings()[i].1),
        binding_step(b) is Some ==> exists|i: int|
            0 <= i < spec_default_bindings().len() && (#[trigger] spec_default_bindings()[i]).1
                == b,
{
    let m = spec_default_bindings();
    assert forall|i: int| 0 <= i < m.len() implies spec_direction((#[trigger] m[i]).0)
        == binding_step(m[i].1) by {
        assert(0 <= i < 17);
    }
    match b {
        Binding::ArrowUp => assert(m[0].1 == b),
        Binding::KeyW => assert(m[1].1 == b),
        Binding::DPadUp => assert(m[2].1 == b),
        Binding::ArrowDown => assert(m[3].1 == b),
        Binding::KeyS => assert(m[4].1 == b),
        Binding::DPadDown => assert(m[5].1 == b),
        Binding::ArrowLeft => assert(m[6].1 == b),
        Binding::KeyA => assert(m[7].1 == b),
        Binding::DPadLeft => assert(m[8].1 == b),
        Binding::ArrowRight => assert(m[9].1 == b),
        Binding::KeyD => assert(m[10].1 == b),
        Binding::DPadRight => assert(m[11].1 == b),
        _ => {},
    }
}

/// 1 when `a` is among `pressed`, else 0.
pub open spec fn held(pressed: Seq<Action>, a: Action) -> int {
    if pressed.contains(a) {
        1
    } else {
        0
    }
}

impl Action {
    /// The direction of a movement action.
    pub fn direction(self) -> (r: Option<(i32, i32)>)
        ensures
            r == spec_direction(self),
    {
        match self {
            Action::Up => Some((0, 1)),
            Action::Down => Some((0, -1)),
            Action::Left => Some((-1, 0)),
            Action::Right => Some((1, 0)),
            _ => None,
        }
    }
}

/// Whether `a` is among the pressed actions.
pub fn is_pressed(pressed: &Vec<Action>, a: Action) -> (r: bool)
    ensures
        r == pressed@.contains(a),
{
    let mut i: usize = 0;
    while i < pressed.len()
        invariant
            i <= pressed@.len(),
            forall|j: int| 0 <= j < i ==> pressed@[j] != a,
        decreases pressed@.len() - i,
    {
        if pressed[i] == a {
            return true;
        }
        i = i + 1;
    }
    false
}

/// The sum of the directions of the pressed movement actions, each counted
/// once however often it appears: the unnormalised movement of the player.
pub fn movement_axis(pressed: &Vec<Action>) -> (r: (i32, i32))
    ensures
        r.0 == held(pressed@, Action::Right) - held(pressed@, Action::Left),
        r.1 == held(pressed@, Action::Up) - held(pressed@, Action::Down),
{
    let mut x: i32 = 0;
    let mut y: i32 = 0;
    if is_pressed(pressed, Action::Up) {
        y = y + 1;
    }
    if is_pressed(pressed, Action::Down) {
        y = y - 1;
    }
    if is_pressed(pressed, Action::Left) {
        x = x - 1;
    }
    if is_pressed(pressed, Action::Right) {
        x = x + 1;
    }
    (x, y)
}

} // verus!
