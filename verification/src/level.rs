//! Scheduling of a level: waves of enemies, each spawned in timed batches.
//!
//! A level is described here by the number of batches of each wave. The
//! timers themselves run outside; each frame they report whether the batch
//! timer and the wave timer ran out, and the director answers with the
//! batches to spawn and the timers to restart.

use vstd::prelude::*;

verus! {

/// Where the level stands.
#[derive(PartialEq, Eq, Structural, Clone, Copy, Debug)]
pub struct LevelDirector {
    /// The current wave.
    pub wave_index: usize,
    /// The last batch of the current wave that was spawned (or tried).
    pub batch_index: usize,
    /// Every wave has been spawned; once the field is clear the level is won.
    pub all_waves_spawned: bool,
}

/// What the director asks of the game in a frame.
#[derive(PartialEq, Eq, Structural, Clone, Copy, Debug)]
pub enum LevelAction {
    /// Spawn the enemies of batch `batch` of wave `wave`.
    SpawnBatch { wave: usize, batch: usize },
    /// Restart the batch timer with the delay that batch `batch` of wave `wave` sets.
    RestartBatchTimer { wave: usize, batch: usize },
    /// Restart the wave timer with the time limit of wave `wave`.
    RestartWaveTimer { wave: usize },
}

impl LevelDirector {
    /// Every wave is spawned exactly when the director stands past the last
    /// one; until then the current wave exists.
    pub open spec fn wf(&self, batches: Seq<usize>) -> bool {
        self.all_waves_spawned == (self.wave_index >= batches.len())
    }
}

/// The actions of entering wave `w` (which exists): its time limit starts and
/// its first batch, if it has one, is spawned.
pub open spec fn enter_wave(batches: Seq<usize>, w: int) -> Seq<LevelAction> {
    if batches[w] > 0 {
        seq![
            LevelAction::RestartWaveTimer { wave: w as usize },
            LevelAction::SpawnBatch { wave: w as usize, batch: 0 },
        ]
    } else {
        seq![LevelAction::RestartWaveTimer { wave: w as usize }]
    }
}

/// The start of a level: nothing when it has no wave or its first wave has no
/// batch; otherwise the director stands at the first batch of the first wave,
/// both timers start from it, and that batch is spawned.
pub open spec fn spec_spawn_level(batches: Seq<usize>) -> Option<(LevelDirector, Seq<LevelAction>)> {
    if batches.len() > 0 && batches[0] > 0 {
        Some(
            (
                LevelDirector { wave_index: 0, batch_index: 0, all_waves_spawned: false },
                seq![
                    LevelAction::RestartWaveTimer { wave: 0 },
                    LevelAction::RestartBatchTimer { wave: 0, batch: 0 },
                    LevelAction::SpawnBatch { wave: 0, batch: 0 },
                ],
            ),
        )
    } else {
        None
    }
}

/// One frame of the director.
///
/// When the batch timer ran out (`spawn_due`), the next batch of the current
/// wave is spawned and its delay starts the batch timer; when the wave has no
/// further batch, the wave timer is made to run out now unless it already had
/// (`wave_expired`). When the wave timer ran out, the next wave begins: its
/// time limit starts and its first batch is spawned (the batch timer is left
/// as it is), or, after the last wave, every wave counts as spawned.
pub open spec fn spec_tick(
    d: LevelDirector,
    batches: Seq<usize>,
    spawn_due: bool,
    wave_due: bool,
    wave_expired: bool,
) -> (LevelDirector, Seq<LevelAction>) {
    if d.all_waves_spawned {
        (d, Seq::empty())
    } else if spawn_due && d.wave_index >= batches.len() {
        (d, Seq::empty())
    } else {
        let b = d.batch_index + 1;
        let d1 = if spawn_due {
            LevelDirector { batch_index: b as usize, ..d }
        } else {
            d
        };
        let more = spawn_due && b < batches[d.wave_index as int];
        let acts1 = if more {
            seq![
                LevelAction::SpawnBatch { wave: d.wave_index, batch: b as usize },
                LevelAction::RestartBatchTimer { wave: d.wave_index, batch: b as usize },
            ]
        } else {
            Seq::empty()
        };
        let wave_now = wave_due || (spawn_due && !more && !wave_expired);
        if wave_now {
            let w = d.wave_index + 1;
            if w < batches.len() {
                (
                    LevelDirector { wave_index: w as usize, batch_index: 0, all_waves_spawned: false },
                    acts1 + enter_wave(batches, w),
                )
            } else {
                (
                    LevelDirector { wave_index: w as usize, batch_index: 0, all_waves_spawned: true },
                    acts1,
                )
            }
        } else {
            (d1, acts1)
        }
    }
}

/// Starts a level whose waves have `batches[w]` batches each.
pub fn spawn_level(batches: &Vec<usize>) -> (r: Option<(LevelDirector, Vec<LevelAction>)>)
    ensures
        match spec_spawn_level(batches@) {
            None => r is None,
            Some((d, acts)) => r matches Some((rd, racts)) && rd == d && racts@ == acts,
        },
{
    if batches.len() == 0 || batches[0] == 0 {
        return None;
    }
    let mut acts: Vec<LevelAction> = Vec::new();
    acts.push(LevelAction::RestartWaveTimer { wave: 0 });
    acts.push(LevelAction::RestartBatchTimer { wave: 0, batch: 0 });
    acts.push(LevelAction::SpawnBatch { wave: 0, batch: 0 });
    Some((LevelDirector { wave_index: 0, batch_index: 0, all_waves_spawned: false }, acts))
}

/// One frame of the director: `spawn_due` and `wave_due` say whether the
/// batch timer and the wave timer ran out this frame, `wave_expired` whether
/// the wave timer had run out already.
pub fn timer_level_game_loop(
    director: &mut LevelDirector,
    batches: &Vec<usize>,
    spawn_due: bool,
    wave_due: bool,
    wave_expired: bool,
) -> (r: Vec<LevelAction>)
    requires
        old(director).wf(batches@),
        old(director).batch_index < usize::MAX,
    ensures
        *final(director) == spec_tick(*old(director), batches@, spawn_due, wave_due, wave_expired).0,
        r@ == spec_tick(*old(director), batches@, spawn_due, wave_due, wave_expired).1,
        final(director).wf(batches@),
{
    let mut acts: Vec<LevelAction> = Vec::new();
    let n = batches.len();
    if director.all_waves_spawned {
        return acts;
    }
    let mut wave_now = wave_due;
    if spawn_due {
        if director.wave_index >= batches.len() {
            return acts;
        }
        director.batch_index = director.batch_index + 1;
        if director.batch_index < batches[director.wave_index] {
            acts.push(
                LevelAction::SpawnBatch { wave: director.wave_index, batch: director.batch_index },
            );
            acts.push(
                LevelAction::RestartBatchTimer {
                    wave: director.wave_index,
                    batch: director.batch_index,
                },
            );
        } else if !wave_expired {
            wave_now = true;
        }
    }
    let ghost acts1 = acts@;
    if wave_now {
        director.wave_index = director.wave_index + 1;
        director.batch_index = 0;
        if director.wave_index < batches.len() {
            acts.push(LevelAction::RestartWaveTimer { wave: director.wave_index });
            if batches[director.wave_index] > 0 {
                acts.push(LevelAction::SpawnBatch { wave: director.wave_index, batch: 0 });
            }
            proof {
                assert(acts@ =~= acts1 + enter_wave(batches@, director.wave_index as int));
            }
        } else {
            director.all_waves_spawned = true;
        }
    }
    acts
}

/// The batch timer is hurried (left 1 ns from running out) when the field is
/// clear while waves remain to be spawned.
pub fn enemies_num_game_loop(director: &LevelDirector, enemies: usize) -> (hurry: bool)
    ensures
        hurry == (!director.all_waves_spawned && enemies == 0),
{
    !director.all_waves_spawned && enemies == 0
}

/// The level is won when every wave has been spawned and no enemy is left.
pub fn complete_level(director: Option<&LevelDirector>, enemies: usize) -> (won: bool)
    ensures
        won == (director matches Some(d) && d.all_waves_spawned && enemies == 0),
{
    match director {
        Some(d) => d.all_waves_spawned && enemies == 0,
        None => false,
    }
}

/// Every batch the director asks to spawn or to time, and every wave whose
/// timer it asks to restart, exists in the level.
pub proof fn law_actions_in_range(
    d: LevelDirector,
    batches: Seq<usize>,
    spawn_due: bool,
    wave_due: bool,
    wave_expired: bool,
)
    requires
        d.wf(batches),
        d.batch_index < usize::MAX,
        batches.len() <= usize::MAX,
    ensures
        forall|i: int|
            0 <= i < spec_tick(d, batches, spawn_due, wave_due, wave_expired).1.len() ==> {
                let a = #[trigger] spec_tick(d, batches, spawn_due, wave_due, wave_expired).1[i];
                match a {
                    LevelAction::SpawnBatch { wave, batch } => wave < batches.len() && batch
                        < batches[wave as int],
                    LevelAction::RestartBatchTimer { wave, batch } => wave < batches.len()
                        && batch < batches[wave as int],
                    LevelAction::RestartWaveTimer { wave } => wave < batches.len(),
                }
            },
{
}

/// The director only moves forward: the wave never goes back and never
/// advances by more than one per frame, a finished level stays finished and
/// asks for nothing more, and a wave timer running out always moves the
/// level on.
pub proof fn law_director_moves_forward(
    d: LevelDirector,
    batches: Seq<usize>,
    spawn_due: bool,
    wave_due: bool,
    wave_expired: bool,
)
    requires
        d.wf(batches),
        d.batch_index < usize::MAX,
        batches.len() <= usize::MAX,
    ensures
        ({
            let (e, acts) = spec_tick(d, batches, spawn_due, wave_due, wave_expired);
            &&& d.wave_index <= e.wave_index <= d.wave_index + 1
            &&& d.all_waves_spawned ==> e == d && acts.len() == 0
            &&& e.wf(batches)
            &&& (!d.all_waves_spawned && wave_due) ==> (e.wave_index == d.wave_index + 1
                && e.batch_index == 0)
            &&& e.all_waves_spawned ==> e.wave_index >= batches.len()
        }),
{
}

/// The spawn spec of a level agrees with the director's invariant.
pub proof fn law_spawn_level_wf(batches: Seq<usize>)
    ensures
        spec_spawn_level(batches) matches Some((d, acts)) ==> d.wf(batches),
{
}


/// The director after `k` frames in each of which only the wave timer runs out.
pub open spec fn run_wave_timeouts(d: LevelDirector, batches: Seq<usize>, k: nat) -> LevelDirector
    decreases k,
{
    if k == 0 {
        d
    } else {
        run_wave_timeouts(spec_tick(d, batches, false, true, false).0, batches, (k - 1) as nat)
    }
}

/// Every level ends: if each wave lasts until its time limit runs out, all
/// waves are spawned after as many frames as waves remain, and not before.
pub proof fn law_level_finishes(d: LevelDirector, batches: Seq<usize>, k: nat)
    requires
        d.wf(batches),
        batches.len() <= usize::MAX,
        !d.all_waves_spawned,
    ensures
        run_wave_timeouts(d, batches, k).all_waves_spawned == (d.wave_index + k >= batches.len()),
    decreases k,
{
    if k > 0 {
        let e = spec_tick(d, batches, false, true, false).0;
        if !e.all_waves_spawned {
            law_level_finishes(e, batches, (k - 1) as nat);
        } else {
            lemma_finished_stays(e, batches, (k - 1) as nat);
        }
    }
}

proof fn lemma_finished_stays(d: LevelDirector, batches: Seq<usize>, k: nat)
    requires
        d.all_waves_spawned,
    ensures
        run_wave_timeouts(d, batches, k) == d,
    decreases k,
{
    if k > 0 {
        lemma_finished_stays(spec_tick(d, batches, false, true, false).0, batches, (k - 1) as nat);
    }
}


/// A level starts exactly when it has a wave and its first wave has a
/// batch, whatever the number of waves; it then stands at the first batch
/// of the first wave, starts both timers from it and spawns it.
pub proof fn law_spawn_level_starts(batches: Seq<usize>)
    ensures
        spec_spawn_level(batches) is Some <==> (batches.len() >= 1 && batches[0] >= 1),
        spec_spawn_level(batches) matches Some((d, acts)) ==> d == (LevelDirector {
            wave_index: 0,
            batch_index: 0,
            all_waves_spawned: false,
        }) && acts.len() == 3 && acts[0] == (LevelAction::RestartWaveTimer { wave: 0 })
            && acts[1] == (LevelAction::RestartBatchTimer { wave: 0, batch: 0 }) && acts[2] == (
        LevelAction::SpawnBatch { wave: 0, batch: 0 }),
{
}

/// When the batch timer runs out, the current wave has no further batch and
/// its timer had not run out, the director moves on exactly as when the wave
/// timer runs out: to the first batch of the next wave, which starts its
/// time limit and spawns its first batch; after the last wave, every wave
/// counts as spawned and nothing more is asked.
pub proof fn law_exhausted_wave_ends(d: LevelDirector, batches: Seq<usize>)
    requires
        d.wf(batches),
        !d.all_waves_spawned,
        d.batch_index < usize::MAX,
        batches.len() <= usize::MAX,
        d.batch_index + 1 >= batches[d.wave_index as int],
    ensures
        ({
            let (e, acts) = spec_tick(d, batches, true, false, false);
            let (f, acts2) = spec_tick(d, batches, false, true, false);
            let w = d.wave_index + 1;
            &&& e == f && acts == acts2
            &&& e.wave_index == w && e.batch_index == 0
            &&& e.all_waves_spawned == (w >= batches.len())
            &&& w >= batches.len() ==> acts.len() == 0
            &&& w < batches.len() ==> acts.len() >= 1 && acts[0] == (LevelAction::RestartWaveTimer {
                wave: w as usize,
            })
            &&& (w < batches.len() && batches[w] > 0) ==> acts.len() == 2 && acts[1] == (
            LevelAction::SpawnBatch { wave: w as usize, batch: 0 })
        }),
{
    let (e, acts) = spec_tick(d, batches, true, false, false);
    assert(acts =~= spec_tick(d, batches, false, true, false).1);
}

} // verus!
