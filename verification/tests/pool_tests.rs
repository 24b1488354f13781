use forte::errors::MIDIRendererError;
use forte::midi_pool::{batch_outcome, MIDIPool, MIDIRendererStatus, RenderStats};

fn rendering_jobs(pool: &MIDIPool, n: usize) -> usize {
    let mut count = 0;
    for i in 0..n {
        if pool.job_status(i) == MIDIRendererStatus::Rendering {
            count += 1;
        }
    }
    count
}

#[test]
fn batch_of_three_with_cap_two() {
    // Three files, two parallel: never more than two jobs run at once,
    // and the batch only finishes when all three have finished.
    let mut pool = MIDIPool::new(2, 3);
    let spawned = pool.run();
    assert_eq!(spawned, vec![0, 1]);
    assert_eq!(rendering_jobs(&pool, 3), 2);
    assert_eq!(pool.spawn_next(), None);
    assert_eq!(pool.status(), MIDIRendererStatus::Rendering);
    assert!(!pool.has_finished());

    pool.note_finished(0);
    assert_eq!(rendering_jobs(&pool, 3), 1);
    let next = pool.spawn_next();
    assert_eq!(next, Some(2));
    assert_eq!(rendering_jobs(&pool, 3), 2);
    assert!(!pool.has_finished());

    pool.note_finished(1);
    pool.note_finished(2);
    assert_eq!(rendering_jobs(&pool, 3), 0);
    assert_eq!(pool.status(), MIDIRendererStatus::Finished);
    assert!(pool.has_finished());
}

#[test]
fn cap_never_exceeded_while_spawning() {
    let mut pool = MIDIPool::new(2, 5);
    for _ in 0..10 {
        pool.spawn_next();
        assert!(pool.get_active_len() <= 2);
    }
    assert_eq!(pool.get_active_len(), 2);
}

#[test]
fn spawn_more_jobs_than_cap_allows() {
    let mut pool = MIDIPool::new(8, 3);
    let spawned = pool.run();
    assert_eq!(spawned, vec![0, 1, 2]);
    assert_eq!(pool.spawn_next(), None);
}

#[test]
fn idle_jobs_keep_pool_unfinished() {
    let mut pool = MIDIPool::new(1, 2);
    assert_eq!(pool.status(), MIDIRendererStatus::Idle);
    pool.run();
    pool.note_finished(0);
    // One finished, one still idle: not finished yet.
    assert_eq!(pool.status(), MIDIRendererStatus::Idle);
    pool.spawn_next();
    pool.note_finished(1);
    assert!(pool.has_finished());
}

#[test]
fn error_cancels_whole_batch() {
    let mut pool = MIDIPool::new(2, 3);
    pool.run();
    pool.note_error(0);
    assert_eq!(pool.status(), MIDIRendererStatus::Error);
    // The batch was dropped; an empty pool reads as finished.
    assert!(pool.has_finished());
}

#[test]
fn stats_only_for_started_allowed_jobs() {
    let mut pool = MIDIPool::new(1, 2);
    pool.run();
    pool.note_stats(0, RenderStats { time_micros: 1_500_000, voice_count: 12 });
    let stats = pool.get_stats();
    assert_eq!(stats.len(), 2);
    assert_eq!(stats[0], Some(RenderStats { time_micros: 1_500_000, voice_count: 12 }));
    assert_eq!(stats[1], None);

    pool.cancel(0);
    let stats = pool.get_stats();
    assert_eq!(stats[0], None);
}

#[test]
fn empty_batch_is_refused() {
    match batch_outcome(Vec::new()) {
        Err(MIDIRendererError::Renderer(msg)) => assert_eq!(msg, "Empty MIDI List"),
        _ => panic!("an empty batch must be refused"),
    }
}

#[test]
fn first_load_failure_aborts_batch() {
    let results: Vec<Result<(), MIDIRendererError>> = vec![
        Ok(()),
        Err(MIDIRendererError::Writer("disk full".to_string())),
        Err(MIDIRendererError::Renderer("other".to_string())),
    ];
    match batch_outcome(results) {
        Err(MIDIRendererError::Writer(msg)) => assert_eq!(msg, "disk full"),
        _ => panic!("the first failure must surface"),
    }
}

#[test]
fn all_loaded_batch_is_accepted() {
    let results: Vec<Result<(), MIDIRendererError>> = vec![Ok(()), Ok(()), Ok(())];
    assert_eq!(batch_outcome(results).map_err(|_| ()), Ok(3));
}
