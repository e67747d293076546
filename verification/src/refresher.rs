//! The writing end of a cache: the loop's phase together with the cell it
//! publishes into, and the record of everything it has published.

use vstd::prelude::*;
use crate::cell::SharedCell;
use crate::cycle::{action, next_phase, published_by, step};
use crate::cycle::{Action, Phase, Signal};

verus! {

/// The one writer of a cell. It is not cloneable: a cell has one refresher,
/// and handles only read.
#[verifier::reject_recursive_types(V)]
pub struct Refresher<V> {
    phase: Phase,
    cell: SharedCell<V>,
    record: Ghost<Seq<V>>,
}

impl<V> Refresher<V> {
    /// The cell is never empty: the record starts with the first value.
    #[verifier::type_invariant]
    spec fn never_empty(&self) -> bool {
        self.record@.len() > 0
    }

    /// The phase of the loop.
    pub closed spec fn phase(&self) -> Phase {
        self.phase
    }

    /// The cell that the loop publishes into.
    pub closed spec fn cell(&self) -> SharedCell<V> {
        self.cell
    }

    /// Every value that this refresher has put into the cell, oldest first.
    pub closed spec fn stored(&self) -> Seq<V> {
        self.record@
    }

    /// Publishes the first value into a new cell. The loop is idle until it
    /// is told that it was spawned.
    pub fn start(first: V) -> (r: Self)
        ensures
            r.phase() == Phase::Idle,
            r.stored() == seq![first],
    {
        let record: Ghost<Seq<V>> = Ghost(Seq::empty().push(first));
        Refresher { phase: Phase::Idle, cell: SharedCell::new(first), record }
    }

    /// A reference to the cell, for the handles that read it.
    pub fn share(&self) -> (cell: SharedCell<V>)
        ensures
            cell == self.cell(),
            self.stored().len() > 0,
    {
        proof {
            use_type_invariant(self);
        }
        self.cell.clone()
    }

    /// The phase the loop is in.
    pub fn state(&self) -> (phase: Phase)
        ensures
            phase == self.phase(),
            self.stored().len() > 0,
    {
        proof {
            use_type_invariant(self);
        }
        self.phase
    }

    /// Takes one signal: moves to the next phase, and stores the value of a
    /// completed refresh into the cell if the loop is running. A value that
    /// arrives in any other phase is dropped. The answer tells the caller
    /// what is left for it to do: invoke the source, wait, or end the loop.
    pub fn on(&mut self, signal: Signal<V>) -> (answer: Action)
        ensures
            answer == action(old(self).phase(), signal),
            final(self).phase() == next_phase(old(self).phase(), signal),
            final(self).stored() == old(self).stored() + published_by(old(self).phase(), signal),
            final(self).cell() == old(self).cell(),
    {
        proof {
            use_type_invariant(&*self);
        }
        let (phase, answer) = step(self.phase, &signal);
        self.phase = phase;
        match answer {
            Action::Publish => {
                if let Signal::Refreshed(value) = signal {
                    let record: Ghost<Seq<V>> = Ghost(self.record@.push(value));
                    self.cell.store(value);
                    self.record = record;
                    assert(self.record@ =~= old(self).record@ + seq![value]);
                }
            },
            _ => {
                assert(self.record@ =~= old(self).record@ + Seq::<V>::empty());
            },
        }
        answer
    }
}

} // verus!
