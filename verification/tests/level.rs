use bow_rogue::level::{
    complete_level, enemies_num_game_loop, spawn_level, timer_level_game_loop, LevelAction,
    LevelDirector,
};

#[test]
fn level_without_first_batch_does_not_start() {
    assert!(spawn_level(&vec![]).is_none());
    assert!(spawn_level(&vec![0, 3]).is_none());
}

#[test]
fn level_starts_at_first_batch() {
    let (d, acts) = spawn_level(&vec![2, 1]).unwrap();
    assert_eq!(d, LevelDirector { wave_index: 0, batch_index: 0, all_waves_spawned: false });
    assert_eq!(
        acts,
        vec![
            LevelAction::RestartWaveTimer { wave: 0 },
            LevelAction::RestartBatchTimer { wave: 0, batch: 0 },
            LevelAction::SpawnBatch { wave: 0, batch: 0 },
        ]
    );
}

#[test]
fn batches_then_waves_until_done() {
    let batches = vec![2, 1];
    let (mut d, _) = spawn_level(&batches).unwrap();

    // nothing ran out
    assert!(timer_level_game_loop(&mut d, &batches, false, false, false).is_empty());

    // batch timer: second batch of wave 0
    let acts = timer_level_game_loop(&mut d, &batches, true, false, false);
    assert_eq!(
        acts,
        vec![
            LevelAction::SpawnBatch { wave: 0, batch: 1 },
            LevelAction::RestartBatchTimer { wave: 0, batch: 1 },
        ]
    );
    assert_eq!((d.wave_index, d.batch_index), (0, 1));

    // batch timer again: wave 0 is exhausted, so wave 1 begins at once
    let acts = timer_level_game_loop(&mut d, &batches, true, false, false);
    assert_eq!(
        acts,
        vec![
            LevelAction::RestartWaveTimer { wave: 1 },
            LevelAction::SpawnBatch { wave: 1, batch: 0 },
        ]
    );
    assert_eq!(d, LevelDirector { wave_index: 1, batch_index: 0, all_waves_spawned: false });

    // fields not cleared yet: no win
    assert!(!complete_level(Some(&d), 0));
    assert!(enemies_num_game_loop(&d, 0));
    assert!(!enemies_num_game_loop(&d, 3));

    // wave timer of the last wave runs out
    let acts = timer_level_game_loop(&mut d, &batches, false, true, true);
    assert!(acts.is_empty());
    assert_eq!(d, LevelDirector { wave_index: 2, batch_index: 0, all_waves_spawned: true });
    assert!(!enemies_num_game_loop(&d, 0));
    assert!(!complete_level(Some(&d), 1));
    assert!(complete_level(Some(&d), 0));
    assert!(!complete_level(None, 0));

    // a finished level asks for nothing
    assert!(timer_level_game_loop(&mut d, &batches, true, true, true).is_empty());
    assert_eq!(d.wave_index, 2);
}

#[test]
fn exhausted_wave_with_expired_timer_waits() {
    let batches = vec![1, 1];
    let mut d = LevelDirector { wave_index: 0, batch_index: 0, all_waves_spawned: false };
    let acts = timer_level_game_loop(&mut d, &batches, true, false, true);
    assert!(acts.is_empty());
    assert_eq!(d, LevelDirector { wave_index: 0, batch_index: 1, all_waves_spawned: false });
}

#[test]
fn wave_without_batches_only_restarts_its_timer() {
    let batches = vec![1, 0, 1];
    let (mut d, _) = spawn_level(&batches).unwrap();
    let acts = timer_level_game_loop(&mut d, &batches, false, true, true);
    assert_eq!(acts, vec![LevelAction::RestartWaveTimer { wave: 1 }]);
    let acts = timer_level_game_loop(&mut d, &batches, false, true, true);
    assert_eq!(
        acts,
        vec![
            LevelAction::RestartWaveTimer { wave: 2 },
            LevelAction::SpawnBatch { wave: 2, batch: 0 },
        ]
    );
}

#[test]
fn wave_timeouts_finish_any_level() {
    let batches = vec![3, 2, 5, 1];
    let (mut d, _) = spawn_level(&batches).unwrap();
    for frame in 0..batches.len() {
        assert!(!d.all_waves_spawned);
        timer_level_game_loop(&mut d, &batches, false, true, false);
        assert_eq!(d.all_waves_spawned, frame + 1 >= batches.len());
    }
}
