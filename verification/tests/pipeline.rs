use keytrace::event::{Action, EventKind, RawEvent, StepOutcome};
use keytrace::recorder::Recorder;

fn press(key: u64, t: u64) -> RawEvent {
    RawEvent { kind: EventKind::KeyPress(key), timestamp: t }
}

fn release(key: u64, t: u64) -> RawEvent {
    RawEvent { kind: EventKind::KeyRelease(key), timestamp: t }
}

fn action(key: u64, start_time: u64, duration: u64) -> Action {
    Action { key, start_time, duration }
}

fn feed(recorder: &mut Recorder, events: &[RawEvent]) -> Vec<StepOutcome> {
    let mut outcomes = Vec::new();
    for e in events {
        outcomes.push(recorder.push_event(e));
    }
    outcomes
}

fn batches(recorder: &Recorder) -> Vec<Vec<Action>> {
    let mut all = Vec::new();
    let mut i: usize = 0;
    while i < recorder.sealed_count() {
        all.push(recorder.sealed_batch(i).actions.clone());
        i += 1;
    }
    all
}

#[test]
fn new_recorder_is_empty() {
    let recorder = Recorder::new();
    assert_eq!(recorder.sealed_count(), 0);
    assert!(recorder.is_idle());
    assert_eq!(recorder.current_history().len(), 0);
}

#[test]
fn single_pair_seals_one_batch() {
    let mut recorder = Recorder::new();
    feed(&mut recorder, &[press(1, 3), release(1, 10)]);
    assert_eq!(batches(&recorder), vec![vec![action(1, 3, 7)]]);
    assert!(recorder.is_idle());
}

#[test]
fn overlapping_holds_share_one_batch() {
    let mut recorder = Recorder::new();
    feed(&mut recorder, &[press(1, 0), press(2, 5), release(1, 10)]);
    // One key is still held: nothing is sealed yet.
    assert_eq!(recorder.sealed_count(), 0);
    recorder.push_event(&release(2, 15));
    // Sealed only after the second release, in release order.
    assert_eq!(batches(&recorder), vec![vec![action(1, 0, 10), action(2, 5, 10)]]);
}

#[test]
fn duplicate_press_keeps_first_start() {
    let mut recorder = Recorder::new();
    let outcomes = feed(&mut recorder, &[press(1, 0), press(1, 3), release(1, 10)]);
    assert_eq!(outcomes[1], StepOutcome::DuplicatePress);
    // Exactly one action, with the original start time.
    assert_eq!(batches(&recorder), vec![vec![action(1, 0, 10)]]);
}

#[test]
fn unmatched_release_is_ignored() {
    let mut recorder = Recorder::new();
    let out = recorder.push_event(&release(1, 0));
    assert_eq!(out, StepOutcome::UnmatchedRelease);
    assert_eq!(recorder.sealed_count(), 0);
    assert!(recorder.is_idle());
    // Processing continues normally afterwards.
    feed(&mut recorder, &[press(2, 1), release(2, 4)]);
    assert_eq!(batches(&recorder), vec![vec![action(2, 1, 3)]]);
}

#[test]
fn sequential_pairs_seal_separate_batches() {
    let mut recorder = Recorder::new();
    feed(&mut recorder, &[press(1, 0), release(1, 1), press(2, 2), release(2, 3)]);
    assert_eq!(batches(&recorder), vec![vec![action(1, 0, 1)], vec![action(2, 2, 1)]]);
}

#[test]
fn negative_duration_is_timing_error() {
    let mut recorder = Recorder::new();
    recorder.push_event(&press(1, 10));
    let out = recorder.push_event(&release(1, 5));
    assert_eq!(out, StepOutcome::TimingError);
    // No action was completed, and the key is no longer held.
    assert_eq!(recorder.sealed_count(), 0);
    assert!(recorder.is_idle());
    // Processing continues normally afterwards.
    feed(&mut recorder, &[press(1, 20), release(1, 30)]);
    assert_eq!(batches(&recorder), vec![vec![action(1, 20, 10)]]);
}

#[test]
fn sealed_count_matches_returns_to_empty() {
    // The table returns to empty three times, so three batches are sealed.
    let mut recorder = Recorder::new();
    feed(
        &mut recorder,
        &[
            press(1, 0),
            release(1, 2),
            press(2, 3),
            press(3, 4),
            release(3, 5),
            release(2, 6),
            press(4, 7),
            release(4, 9),
        ],
    );
    assert_eq!(recorder.sealed_count(), 3);
    assert_eq!(
        batches(&recorder),
        vec![
            vec![action(1, 0, 2)],
            vec![action(3, 4, 1), action(2, 3, 3)],
            vec![action(4, 7, 2)],
        ]
    );
}

#[test]
fn zero_duration_hold_is_valid() {
    let mut recorder = Recorder::new();
    feed(&mut recorder, &[press(1, 5), release(1, 5)]);
    assert_eq!(batches(&recorder), vec![vec![action(1, 5, 0)]]);
}

#[test]
fn nonkey_events_change_nothing() {
    let mut recorder = Recorder::new();
    let outcomes = feed(
        &mut recorder,
        &[
            RawEvent { kind: EventKind::PointerMove, timestamp: 0 },
            press(1, 1),
            RawEvent { kind: EventKind::Wheel, timestamp: 2 },
            RawEvent { kind: EventKind::ButtonPress(0), timestamp: 3 },
            release(1, 4),
            RawEvent { kind: EventKind::ButtonRelease(0), timestamp: 5 },
        ],
    );
    assert_eq!(outcomes[0], StepOutcome::Observed);
    assert_eq!(outcomes[2], StepOutcome::Observed);
    assert_eq!(outcomes[3], StepOutcome::Observed);
    assert_eq!(outcomes[5], StepOutcome::Observed);
    assert_eq!(batches(&recorder), vec![vec![action(1, 1, 3)]]);
}

#[test]
fn chained_overlap_lands_in_one_batch() {
    // The hold intervals 0..100, 50..60 and 70..200 are chained through
    // overlap even though the first and the last never overlap directly:
    // all three land in one batch.
    let mut recorder = Recorder::new();
    feed(
        &mut recorder,
        &[
            press(1, 0),
            press(2, 50),
            release(2, 60),
            press(3, 70),
            release(1, 100),
            release(3, 200),
        ],
    );
    assert_eq!(
        batches(&recorder),
        vec![vec![action(2, 50, 10), action(1, 0, 100), action(3, 70, 130)]]
    );
}

#[test]
fn simultaneous_releases_keep_consumption_order() {
    let mut recorder = Recorder::new();
    feed(&mut recorder, &[press(1, 0), press(2, 0), release(2, 10), release(1, 10)]);
    assert_eq!(batches(&recorder), vec![vec![action(2, 0, 10), action(1, 0, 10)]]);
}

#[test]
fn finish_flushes_partial_batch() {
    let mut recorder = Recorder::new();
    // Key 2 is still held when the stream ends: the completed action for
    // key 1 is still in progress, and is flushed as a final partial batch.
    feed(&mut recorder, &[press(1, 0), press(2, 5), release(1, 10)]);
    assert_eq!(recorder.sealed_count(), 0);
    recorder.finish();
    assert_eq!(batches(&recorder), vec![vec![action(1, 0, 10)]]);
}

#[test]
fn finish_with_nothing_pending_adds_nothing() {
    let mut recorder = Recorder::new();
    feed(&mut recorder, &[press(1, 0), release(1, 1)]);
    recorder.finish();
    assert_eq!(batches(&recorder), vec![vec![action(1, 0, 1)]]);
}

#[test]
fn press_and_observe_outcomes() {
    let mut recorder = Recorder::new();
    assert_eq!(recorder.push_event(&press(7, 0)), StepOutcome::Opened);
    assert_eq!(
        recorder.push_event(&release(7, 1)),
        StepOutcome::Matched(action(7, 0, 1))
    );
}

#[test]
fn snapshot_matches_indexed_access() {
    let mut recorder = Recorder::new();
    feed(&mut recorder, &[press(1, 0), release(1, 2), press(2, 3), release(2, 7)]);
    let history = recorder.current_history();
    let snap = history.snapshot();
    assert_eq!(snap.len(), 2);
    assert_eq!(snap[0].actions, vec![action(1, 0, 2)]);
    assert_eq!(snap[1].actions, vec![action(2, 3, 4)]);
    assert_eq!(history.batch(1).len(), 1);
    assert_eq!(*history.batch(1).action(0), action(2, 3, 4));
}
