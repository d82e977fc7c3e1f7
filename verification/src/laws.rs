//! Properties of the pipeline, stated over the model and proved once and
//! for all. The executable pipeline promises (in its contracts) to agree
//! with [`step`] event by event, so everything proved here holds of it.

use vstd::prelude::*;

use crate::event::{EventKind, KeyId, RawEvent, StepOutcome, Timestamp};
use crate::model::{correlate, run, step, CoreModel};

verus! {

/// Whether this event takes the open-press table from non-empty back to
/// empty.
pub open spec fn empties_table(m: CoreModel, e: RawEvent) -> bool {
    !m.open.is_empty() && step(m, e).open.is_empty()
}

/// Whether this event is a release whose timestamp precedes the recorded
/// press of its key (a timing fault: the malformed interval is dropped).
pub open spec fn timing_fault(m: CoreModel, e: RawEvent) -> bool {
    correlate(m.open, e) is TimingError
}

/// How often, along this event sequence, the open-press table returns to
/// empty after having been non-empty.
pub open spec fn emptyings(events: Seq<RawEvent>) -> nat
    decreases events.len(),
{
    if events.len() == 0 {
        0
    } else {
        emptyings(events.drop_last()) + (if empties_table(
            run(events.drop_last()),
            events.last(),
        ) {
            1nat
        } else {
            0nat
        })
    }
}

/// Whether no event of the sequence is a timing fault in the state it
/// meets. Any sequence of matched press/release pairs whose releases do
/// not precede their presses is fault-free.
pub open spec fn fault_free(events: Seq<RawEvent>) -> bool
    decreases events.len(),
{
    if events.len() == 0 {
        true
    } else {
        fault_free(events.drop_last()) && !timing_fault(run(events.drop_last()), events.last())
    }
}

/// One event seals exactly one batch when it returns the open-press table
/// to empty, and none otherwise — provided it is not a timing fault (a
/// fault removes its key without completing an action, so it can empty
/// the table without sealing anything).
pub proof fn lemma_seal_iff_table_empties(m: CoreModel, e: RawEvent)
    requires
        !timing_fault(m, e),
    ensures
        step(m, e).sealed.len() == m.sealed.len() + (if empties_table(m, e) {
            1int
        } else {
            0int
        }),
{
    match e.kind {
        EventKind::KeyPress(k) => {
            if !m.open.contains_key(k) {
                assert(step(m, e).open.contains_key(k));
            }
        },
        EventKind::KeyRelease(k) => {
            if m.open.contains_key(k) {
                assert(m.open.dom().contains(k));
                assert(!m.open.is_empty());
            }
        },
        _ => {},
    }
}

/// The number of sealed batches equals the number of times the open-press
/// table returns to empty after having been non-empty, over any
/// fault-free event sequence — in particular over any sequence of matched
/// press/release pairs.
pub proof fn lemma_history_counts_emptyings(events: Seq<RawEvent>)
    requires
        fault_free(events),
    ensures
        run(events).sealed.len() == emptyings(events),
    decreases events.len(),
{
    if events.len() > 0 {
        lemma_history_counts_emptyings(events.drop_last());
        lemma_seal_iff_table_empties(run(events.drop_last()), events.last());
    }
}

/// Duplicate press idempotence: a press for a key that is already held
/// changes nothing — the original press time is retained.
pub proof fn lemma_duplicate_press_ignored(m: CoreModel, k: KeyId, t: Timestamp)
    requires
        m.open.contains_key(k),
    ensures
        step(m, RawEvent { kind: EventKind::KeyPress(k), timestamp: t }) == m,
{
}

/// Unmatched release robustness: a release for a key that is not held
/// changes nothing and completes no action.
pub proof fn lemma_unmatched_release_ignored(m: CoreModel, k: KeyId, t: Timestamp)
    requires
        !m.open.contains_key(k),
    ensures
        step(m, RawEvent { kind: EventKind::KeyRelease(k), timestamp: t }) == m,
{
    let e = RawEvent { kind: EventKind::KeyRelease(k), timestamp: t };
    assert(m.open.remove(k) =~= m.open);
    assert(step(m, e) =~= m);
}

/// Pointer, wheel and button events never affect the open-press table,
/// the in-progress batch, or the history, and never trigger a seal.
pub proof fn lemma_nonkey_ignored(m: CoreModel, e: RawEvent)
    requires
        !(e.kind is KeyPress),
        !(e.kind is KeyRelease),
    ensures
        step(m, e) == m,
{
}

} // verus!
