//! Grouping of completed actions into batches, and the history of batches.
//!
//! [`ActionGrouper`] owns the in-progress [`ParallelActionSet`] and the
//! [`History`]. "Parallel" is structural: a batch is sealed exactly when a
//! completed action arrives while no key is held any more, so two actions
//! share a batch whenever their hold intervals are chained through at
//! least one moment of overlap (not by a pairwise interval test).

use vstd::prelude::*;

use crate::event::Action;
use crate::model::absorb;

verus! {

/// An ordered batch of actions whose hold intervals were chained through
/// overlap, in release order.
#[derive(Debug)]
pub struct ParallelActionSet {
    pub actions: Vec<Action>,
}

impl View for ParallelActionSet {
    type V = Seq<Action>;

    /// The actions of the batch, in release order.
    open spec fn view(&self) -> Seq<Action> {
        self.actions@
    }
}

impl ParallelActionSet {
    /// How many actions the batch holds.
    pub fn len(&self) -> (n: usize)
        ensures
            n == self@.len(),
    {
        self.actions.len()
    }

    /// The `i`-th action of the batch, in release order.
    pub fn action(&self, i: usize) -> (a: &Action)
        requires
            i < self@.len(),
        ensures
            *a == self@[i as int],
    {
        &self.actions[i]
    }
}

/// The ordered, append-only accumulation of sealed batches.
pub struct History {
    entries: Vec<ParallelActionSet>,
}

impl View for History {
    type V = Seq<Seq<Action>>;

    /// One sequence of actions per sealed batch, in emission order.
    closed spec fn view(&self) -> Seq<Seq<Action>> {
        Seq::new(self.entries@.len(), |i: int| self.entries@[i]@)
    }
}

impl History {
    /// An empty history.
    pub fn new() -> (h: Self)
        ensures
            h@ == Seq::<Seq<Action>>::empty(),
    {
        let h = History { entries: Vec::new() };
        proof {
            assert(h@ =~= Seq::<Seq<Action>>::empty());
        }
        h
    }

    /// Appends one sealed batch at the end; nothing already recorded moves.
    pub fn append(&mut self, set: ParallelActionSet)
        ensures
            final(self)@ == old(self)@.push(set@),
    {
        let ghost before = self@;
        let ghost set_view = set@;
        self.entries.push(set);
        proof {
            assert(self@ =~= before.push(set_view));
        }
    }

    /// How many batches have been sealed.
    pub fn len(&self) -> (n: usize)
        ensures
            n == self@.len(),
    {
        self.entries.len()
    }

    /// The `i`-th sealed batch, in emission order.
    pub fn batch(&self, i: usize) -> (b: &ParallelActionSet)
        requires
            i < self@.len(),
        ensures
            b@ == self@[i as int],
    {
        &self.entries[i]
    }

    /// A read-only view of every sealed batch, in emission order.
    pub fn snapshot(&self) -> (s: &Vec<ParallelActionSet>)
        ensures
            s@.len() == self@.len(),
            forall|i: int| 0 <= i < s@.len() ==> s@[i]@ == self@[i],
    {
        &self.entries
    }
}

/// Decides when the in-progress batch is sealed; owns it and the history.
pub struct ActionGrouper {
    pending: Vec<Action>,
    history: History,
}

impl ActionGrouper {
    /// The in-progress batch: completed actions, in release order, not yet
    /// sealed.
    pub closed spec fn pending(&self) -> Seq<Action> {
        self.pending@
    }

    /// The sealed history so far.
    pub closed spec fn sealed(&self) -> Seq<Seq<Action>> {
        self.history@
    }

    /// A grouper with no batch in progress and an empty history.
    pub fn new() -> (g: Self)
        ensures
            g.pending() == Seq::<Action>::empty(),
            g.sealed() == Seq::<Seq<Action>>::empty(),
    {
        ActionGrouper { pending: Vec::new(), history: History::new() }
    }

    /// Receives one completed action together with whether the open-press
    /// table is now empty, and does with the in-progress batch and the
    /// history exactly what [`absorb`] says: the action is appended, and
    /// the batch is sealed onto the history exactly when the table is
    /// empty.
    pub fn absorb(&mut self, a: Action, table_empty: bool)
        ensures
            (final(self).pending(), final(self).sealed()) == absorb(
                old(self).pending(),
                old(self).sealed(),
                a,
                table_empty,
            ),
    {
        self.pending.push(a);
        if table_empty {
            let mut batch: Vec<Action> = Vec::new();
            core::mem::swap(&mut batch, &mut self.pending);
            self.history.append(ParallelActionSet { actions: batch });
        }
    }

    /// Seals a non-empty in-progress batch as a final, partial batch; with
    /// nothing in progress the history is left as it is. For the end of
    /// the event stream, where the choice is to flush rather than discard.
    pub fn flush(&mut self)
        ensures
            final(self).pending() == Seq::<Action>::empty(),
            final(self).sealed() == if old(self).pending().len() == 0 {
                old(self).sealed()
            } else {
                old(self).sealed().push(old(self).pending())
            },
    {
        if self.pending.len() > 0 {
            let mut batch: Vec<Action> = Vec::new();
            core::mem::swap(&mut batch, &mut self.pending);
            self.history.append(ParallelActionSet { actions: batch });
        }
    }

    /// A read-only borrow of the history.
    pub fn history(&self) -> (h: &History)
        ensures
            h@ == self.sealed(),
    {
        &self.history
    }
}

} // verus!
