//! What a run has collected, and what a death means for it.

use vstd::prelude::*;
use crate::player::Player;
use crate::state::GameState;

verus! {

/// Gold collected and enemies killed in the current run.
pub struct RunStats {
    pub gold: usize,
    pub kills: usize,
}

/// A run starts with nothing collected.
impl Default for RunStats {
    fn default() -> (r: Self)
        ensures
            r.gold == 0 && r.kills == 0,
    {
        RunStats { gold: 0, kills: 0 }
    }
}

/// What follows from a death.
#[derive(PartialEq, Eq, Structural, Clone, Copy, Debug)]
pub struct DeathOutcome {
    /// Experience for the player, if there is a single one.
    pub xp_reward: u32,
    /// The dead entity is removed.
    pub despawn: bool,
    /// The state the game moves to, if any.
    pub next_state: Option<GameState>,
}

/// The run after the death of an entity, and what follows from it. An
/// enemy's death adds a kill and a gold coin, rewards the player with
/// experience and removes the body; the player's death ends the run.
pub open spec fn spec_record_death(s: RunStats, victim_is_enemy: bool, victim_is_player: bool) -> (
    RunStats,
    DeathOutcome,
) {
    let next_state = if victim_is_player {
        Some(GameState::GameOver)
    } else {
        None
    };
    if victim_is_enemy {
        (
            RunStats { gold: (s.gold + 1) as usize, kills: (s.kills + 1) as usize },
            DeathOutcome { xp_reward: Player::XP_PER_KILL, despawn: true, next_state },
        )
    } else {
        (s, DeathOutcome { xp_reward: 0, despawn: false, next_state })
    }
}

impl RunStats {
    /// Records the death of an entity. An enemy's death adds a kill and a
    /// gold coin, rewards the player with experience and removes the body;
    /// the player's death ends the run.
    pub fn record_death(&mut self, victim_is_enemy: bool, victim_is_player: bool) -> (o:
        DeathOutcome)
        requires
            victim_is_enemy ==> old(self).kills < usize::MAX && old(self).gold < usize::MAX,
        ensures
            (*final(self), o) == spec_record_death(*old(self), victim_is_enemy, victim_is_player),
    {
        let mut o = DeathOutcome { xp_reward: 0, despawn: false, next_state: None };
        if victim_is_enemy {
            self.kills = self.kills + 1;
            self.gold = self.gold + 1;
            o.xp_reward = Player::XP_PER_KILL;
            o.despawn = true;
        }
        if victim_is_player {
            o.next_state = Some(GameState::GameOver);
        }
        o
    }
}

/// Gold and kills go up together: a run that starts with as much gold as
/// kills keeps them equal through every death, and neither ever goes down.
pub proof fn law_gold_tracks_kills(s: RunStats, victim_is_enemy: bool, victim_is_player: bool)
    requires
        s.gold == s.kills,
        s.kills < usize::MAX,
    ensures
        ({
            let (t, _) = spec_record_death(s, victim_is_enemy, victim_is_player);
            t.gold == t.kills && t.kills >= s.kills && t.gold >= s.gold
        }),
{
}

/// Only the player's death ends the run, and only an enemy's death is
/// rewarded.
pub proof fn law_death_rewards(s: RunStats, victim_is_enemy: bool, victim_is_player: bool)
    requires
        victim_is_enemy ==> s.kills < usize::MAX && s.gold < usize::MAX,
    ensures
        ({
            let (_, o) = spec_record_death(s, victim_is_enemy, victim_is_player);
            &&& (o.next_state == Some(GameState::GameOver)) == victim_is_player
            &&& (o.xp_reward > 0) == victim_is_enemy
        }),
{
}

} // verus!
