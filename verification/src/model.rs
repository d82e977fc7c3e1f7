//! The mathematical model of the pipeline.
//!
//! A [`CoreModel`] is the whole observable state: the open-press table,
//! the in-progress batch, and the sealed history. [`step`] says what one
//! raw event does to that state, and [`run`] folds a sequence of events
//! from the initial state. The executable pipeline promises, event by
//! event, to agree with `step`.

use vstd::prelude::*;

use crate::event::{Action, EventKind, KeyId, RawEvent, StepOutcome, Timestamp};

verus! {

/// The observable state of the whole pipeline:
/// which keys are held (and since when), which completed actions are
/// waiting in the in-progress batch, and which batches are sealed.
#[verifier::ext_equal]
pub ghost struct CoreModel {
    /// The open-press table: each held key mapped to its press timestamp.
    pub open: Map<KeyId, Timestamp>,
    /// The in-progress batch: completed actions, in release order, whose
    /// batch has not been sealed yet.
    pub pending: Seq<Action>,
    /// The history: one entry per sealed batch, in emission order.
    pub sealed: Seq<Seq<Action>>,
}

/// The state before any event: nothing held, nothing pending, nothing sealed.
pub open spec fn init() -> CoreModel {
    CoreModel { open: Map::empty(), pending: Seq::empty(), sealed: Seq::empty() }
}

/// The action completed by releasing key `k` at `release`, given that it
/// was pressed at `press`. Meaningful only when `press <= release`.
pub open spec fn completed_action(k: KeyId, press: Timestamp, release: Timestamp) -> Action {
    Action { key: k, start_time: press, duration: (release - press) as Timestamp }
}

/// The open-press table after one event.
///
/// A press inserts the key unless it is already held (the first press
/// wins). A release removes the key whenever it is held — also when the
/// release timestamp is malformed, since the recorded press can no longer
/// yield a valid interval. Everything else leaves the table alone.
pub open spec fn table_after(open: Map<KeyId, Timestamp>, e: RawEvent) -> Map<KeyId, Timestamp> {
    match e.kind {
        EventKind::KeyPress(k) => if open.contains_key(k) {
            open
        } else {
            open.insert(k, e.timestamp)
        },
        EventKind::KeyRelease(k) => open.remove(k),
        _ => open,
    }
}

/// How the correlator classifies one event against the open-press table.
pub open spec fn correlate(open: Map<KeyId, Timestamp>, e: RawEvent) -> StepOutcome {
    match e.kind {
        EventKind::KeyPress(k) => if open.contains_key(k) {
            StepOutcome::DuplicatePress
        } else {
            StepOutcome::Opened
        },
        EventKind::KeyRelease(k) => if !open.contains_key(k) {
            StepOutcome::UnmatchedRelease
        } else if e.timestamp < open[k] {
            StepOutcome::TimingError
        } else {
            StepOutcome::Matched(completed_action(k, open[k], e.timestamp))
        },
        _ => StepOutcome::Observed,
    }
}

/// What the grouper does with one completed action: append it to the
/// in-progress batch and, if the open-press table is now empty, seal the
/// batch onto the history.
pub open spec fn absorb(
    pending: Seq<Action>,
    sealed: Seq<Seq<Action>>,
    a: Action,
    table_empty: bool,
) -> (Seq<Action>, Seq<Seq<Action>>) {
    if table_empty {
        (Seq::empty(), sealed.push(pending.push(a)))
    } else {
        (pending.push(a), sealed)
    }
}

/// The whole pipeline state after one event.
pub open spec fn step(m: CoreModel, e: RawEvent) -> CoreModel {
    let open2 = table_after(m.open, e);
    match correlate(m.open, e) {
        StepOutcome::Matched(a) => {
            let (pending2, sealed2) = absorb(m.pending, m.sealed, a, open2.is_empty());
            CoreModel { open: open2, pending: pending2, sealed: sealed2 }
        },
        _ => CoreModel { open: open2, pending: m.pending, sealed: m.sealed },
    }
}

/// The pipeline state after a whole sequence of events, from the initial
/// state, in order.
pub open spec fn run(events: Seq<RawEvent>) -> CoreModel
    decreases events.len(),
{
    if events.len() == 0 {
        init()
    } else {
        step(run(events.drop_last()), events.last())
    }
}

/// What happens to an in-progress batch when the event stream ends:
/// a non-empty one is flushed as a final partial batch, an empty one
/// leaves the history as it is.
pub open spec fn flush(m: CoreModel) -> CoreModel {
    if m.pending.len() == 0 {
        m
    } else {
        CoreModel { open: m.open, pending: Seq::empty(), sealed: m.sealed.push(m.pending) }
    }
}

} // verus!
