//! The event correlator: matches key presses with key releases.
//!
//! [`EventCorrelator`] owns the open-press table. Its view is the table as
//! a `Map<KeyId, Timestamp>`, and [`EventCorrelator::process`] promises to
//! transform that map exactly as [`crate::model::table_after`] says and to
//! classify the event exactly as [`crate::model::correlate`] says.

use std::collections::HashMap;

use vstd::prelude::*;

use crate::event::{Action, EventKind, KeyId, RawEvent, StepOutcome, Timestamp};
use crate::model::{correlate, table_after};

verus! {

broadcast use vstd::std_specs::hash::group_hash_axioms;

/// Matches press/release pairs into [`Action`]s; owns the open-press table.
pub struct EventCorrelator {
    open: HashMap<KeyId, Timestamp>,
}

impl View for EventCorrelator {
    type V = Map<KeyId, Timestamp>;

    /// The open-press table: each currently held key, mapped to the
    /// timestamp of its (first) press.
    closed spec fn view(&self) -> Map<KeyId, Timestamp> {
        self.open@
    }
}

impl EventCorrelator {
    /// A correlator with no key held.
    pub fn new() -> (c: Self)
        ensures
            c@ == Map::<KeyId, Timestamp>::empty(),
    {
        EventCorrelator { open: HashMap::new() }
    }

    /// Consumes one raw event: updates the open-press table as
    /// [`table_after`] says, and returns the classification that
    /// [`correlate`] gives for the old table. In particular, a matched
    /// release returns `Matched` with the completed action, and every
    /// anomaly (duplicate press, unmatched release, malformed timing) is
    /// reported in the outcome instead of failing.
    pub fn process(&mut self, e: &RawEvent) -> (out: StepOutcome)
        ensures
            final(self)@ == table_after(old(self)@, *e),
            out == correlate(old(self)@, *e),
    {
        match e.kind {
            EventKind::KeyPress(k) => {
                if self.open.contains_key(&k) {
                    StepOutcome::DuplicatePress
                } else {
                    self.open.insert(k, e.timestamp);
                    StepOutcome::Opened
                }
            },
            EventKind::KeyRelease(k) => {
                match self.open.remove(&k) {
                    None => {
                        proof {
                            assert(old(self)@.remove(k) =~= old(self)@);
                        }
                        StepOutcome::UnmatchedRelease
                    },
                    Some(press) => {
                        if e.timestamp < press {
                            StepOutcome::TimingError
                        } else {
                            StepOutcome::Matched(
                                Action { key: k, start_time: press, duration: e.timestamp - press },
                            )
                        }
                    },
                }
            },
            _ => StepOutcome::Observed,
        }
    }

    /// Whether no key is currently held. This is what the grouper watches:
    /// the batch in progress is sealed exactly when the table returns to
    /// empty.
    pub fn is_idle(&self) -> (r: bool)
        ensures
            r == self@.is_empty(),
    {
        self.open.is_empty()
    }
}

} // verus!
