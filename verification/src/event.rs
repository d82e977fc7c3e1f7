use vstd::prelude::*;

verus! {

/// Identity of a key. All keys live in one global keyspace; the numeric
/// code is assigned by whoever feeds events in.
pub type KeyId = u64;

/// Identity of a pointer button.
pub type ButtonId = u64;

/// An absolute point in time, in whatever unit the event producer uses
/// (the producer promises timestamps are monotonically non-decreasing).
pub type Timestamp = u64;

/// The variant of one observed hardware event.
#[derive(Clone, Copy, PartialEq, Eq, Structural, Debug)]
pub enum EventKind {
    KeyPress(KeyId),
    KeyRelease(KeyId),
    PointerMove,
    Wheel,
    ButtonPress(ButtonId),
    ButtonRelease(ButtonId),
}

/// One observed hardware event: a variant plus the time it happened.
#[derive(Clone, Copy, PartialEq, Eq, Structural, Debug)]
pub struct RawEvent {
    pub kind: EventKind,
    pub timestamp: Timestamp,
}

/// A completed key-hold interval: the key, when it was pressed, and for
/// how long it was held. An `Action` exists only once both the press and
/// its matching release have been observed; `duration` is never negative
/// because a release that precedes its press is rejected as a timing
/// fault instead of producing an `Action`.
#[derive(Clone, Copy, PartialEq, Eq, Structural, Debug)]
pub struct Action {
    pub key: KeyId,
    pub start_time: Timestamp,
    pub duration: Timestamp,
}

/// How one event was classified by the correlator.
///
/// Only `Matched` carries an `Action`; every other variant leaves the
/// stream of actions untouched. None of the anomalies is fatal: the
/// pipeline recovers locally and keeps consuming.
#[derive(Clone, Copy, PartialEq, Eq, Structural, Debug)]
pub enum StepOutcome {
    /// A non-key event (pointer, wheel, button): observed, never correlated.
    Observed,
    /// A press for a key that was not held: an open press was recorded.
    Opened,
    /// A press for a key already held: ignored, the first press wins.
    DuplicatePress,
    /// A release with no matching open press: silently dropped.
    UnmatchedRelease,
    /// A release whose timestamp precedes the recorded press: the malformed
    /// interval is dropped and the key is no longer held.
    TimingError,
    /// A release that matched an open press: the completed action.
    Matched(Action),
}

} // verus!
