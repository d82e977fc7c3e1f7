//! The pipeline driver: one event in, the whole state moved one step.
//!
//! A [`Recorder`] owns the correlator and the grouper and feeds them in
//! order. Its view is the [`CoreModel`], and [`Recorder::push_event`]
//! promises that the state after the call is exactly
//! [`crate::model::step`] of the state before.

use vstd::prelude::*;

use crate::correlator::EventCorrelator;
use crate::event::{RawEvent, StepOutcome};
use crate::group::{ActionGrouper, History, ParallelActionSet};
use crate::model::{correlate, flush, init, step, CoreModel};

verus! {

/// The event-correlation and grouping engine, driven one raw event at a
/// time. Each event is consumed exactly once; anomalies are classified in
/// the returned [`StepOutcome`] and never abort the pipeline.
pub struct Recorder {
    correlator: EventCorrelator,
    grouper: ActionGrouper,
}

impl View for Recorder {
    type V = CoreModel;

    /// The whole observable state: the open-press table, the in-progress
    /// batch, and the sealed history.
    closed spec fn view(&self) -> CoreModel {
        CoreModel {
            open: self.correlator@,
            pending: self.grouper.pending(),
            sealed: self.grouper.sealed(),
        }
    }
}

impl Recorder {
    /// A recorder in the initial state: nothing held, nothing pending,
    /// nothing sealed.
    pub fn new() -> (r: Self)
        ensures
            r@ == init(),
    {
        let r = Recorder { correlator: EventCorrelator::new(), grouper: ActionGrouper::new() };
        proof {
            assert(r@ =~= init());
        }
        r
    }

    /// Feeds one raw event through the pipeline. The state afterwards is
    /// exactly [`step`] of the state before, and the returned outcome is
    /// exactly how [`correlate`] classifies the event: a matched release
    /// yields `Matched` with the completed action (appended to the
    /// in-progress batch, which is sealed if no key is held any more), a
    /// duplicate press or unmatched or malformed release is reported and
    /// changes no recorded action, and non-key events only pass through.
    pub fn push_event(&mut self, e: &RawEvent) -> (out: StepOutcome)
        ensures
            final(self)@ == step(old(self)@, *e),
            out == correlate(old(self)@.open, *e),
    {
        let out = self.correlator.process(e);
        if let StepOutcome::Matched(a) = out {
            let idle = self.correlator.is_idle();
            self.grouper.absorb(a, idle);
        }
        out
    }

    /// Ends the stream of events: an in-progress batch, if non-empty, is
    /// flushed to the history as a final partial batch (rather than
    /// discarded). The state afterwards is exactly [`flush`] of the state
    /// before.
    pub fn finish(&mut self)
        ensures
            final(self)@ == flush(old(self)@),
    {
        self.grouper.flush();
        proof {
            assert(final(self)@ =~= flush(old(self)@));
        }
    }

    /// How many batches have been sealed so far.
    pub fn sealed_count(&self) -> (n: usize)
        ensures
            n == self@.sealed.len(),
    {
        self.grouper.history().len()
    }

    /// The `i`-th sealed batch, in emission order. Together with
    /// [`Recorder::sealed_count`] this is a restartable, finite-so-far
    /// stream of the batches sealed so far: a consumer keeps its own
    /// cursor and polls for batches beyond it.
    pub fn sealed_batch(&self, i: usize) -> (b: &ParallelActionSet)
        requires
            i < self@.sealed.len(),
        ensures
            b@ == self@.sealed[i as int],
    {
        self.grouper.history().batch(i)
    }

    /// A full snapshot of the history so far.
    pub fn current_history(&self) -> (h: &History)
        ensures
            h@ == self@.sealed,
    {
        self.grouper.history()
    }

    /// Whether no key is currently held.
    pub fn is_idle(&self) -> (r: bool)
        ensures
            r == self@.open.is_empty(),
    {
        self.correlator.is_idle()
    }
}

} // verus!
