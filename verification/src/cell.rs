//! The shared cell: one slot that always holds a complete snapshot, read
//! without blocking by any number of handles and replaced whole by the one
//! refresh loop.

use vstd::prelude::*;
use std::marker::PhantomData;
use std::sync::Arc;
use arc_swap::{ArcSwap, ArcSwapAny};
use smol::Task;

verus! {

/// A background task of `smol`. Dropping it cancels the task.
#[verifier::external_type_specification]
#[verifier::external_body]
#[verifier::reject_recursive_types(T)]
pub struct ExTask<T>(Task<T>);

/// One shared slot, kept by `arc_swap`. Nothing of its inside is visible
/// here; clones refer to the same slot, not to copies of it.
#[derive(Debug)]
#[verifier::external_body]
#[verifier::reject_recursive_types(V)]
pub struct SharedCell<V> {
    slot: Arc<ArcSwap<V>>,
}

/// Trusted: `ArcSwapAny::new` makes a slot that holds `first`. Nothing is
/// stated of the slot, which is opaque.
#[verifier::external_body]
fn slot_new<V>(first: V) -> (cell: SharedCell<V>) {
    SharedCell { slot: Arc::new(ArcSwapAny::new(Arc::new(first))) }
}

/// Trusted: `ArcSwapAny::store` replaces the snapshot in the slot. It works
/// through a shared reference, so nothing is stated here; the refresher
/// keeps the record of what it stored.
#[verifier::external_body]
fn slot_store<V>(cell: &SharedCell<V>, next: V) {
    cell.slot.store(Arc::new(next))
}

/// Trusted: `ArcSwapAny::load_full` hands out the snapshot that the slot
/// holds at some instant during the call. Which one that is depends on what
/// other threads store meanwhile, so nothing is stated of the result.
#[verifier::external_body]
fn slot_load<V>(cell: &SharedCell<V>) -> (snapshot: Arc<V>) {
    cell.slot.load_full()
}

/// Trusted: `Arc::clone` on the slot gives a second reference to the same
/// slot, so the two cells are one and the same.
#[verifier::external_body]
fn slot_share<V>(cell: &SharedCell<V>) -> (other: SharedCell<V>)
    ensures
        other == *cell,
{
    SharedCell { slot: Arc::clone(&cell.slot) }
}

impl<V> Clone for SharedCell<V> {
    /// Another reference to the same slot.
    fn clone(&self) -> (other: Self)
        ensures
            other == *self,
    {
        slot_share(self)
    }
}

impl<V> SharedCell<V> {
    /// A new slot that holds `first`.
    pub(crate) fn new(first: V) -> (cell: Self) {
        slot_new(first)
    }

    /// Replaces the snapshot by `next`. Only the refresh loop stores.
    pub(crate) fn store(&self, next: V) {
        slot_store(self, next)
    }

    /// The current snapshot. Never blocks, whatever the loop is doing.
    pub fn read(&self) -> (snapshot: Arc<V>) {
        slot_load(self)
    }
}

/// A handle to a cache: the cell that holds the value, and a share in the
/// background loop that keeps it fresh. The loop lives as long as a handle
/// does.
#[derive(Debug)]
#[verifier::reject_recursive_types(V)]
pub struct View<V> where V: Sync + Send {
    value: SharedCell<V>,
    ticker: Arc<Task<()>>,
    phantom: PhantomData<V>,
}

impl<V> Clone for View<V> where V: Sync + Send {
    /// Another handle to the same cache: it reads the same cell and shares
    /// the same loop.
    fn clone(&self) -> (other: Self)
        ensures
            other == *self,
    {
        View { value: self.value.clone(), ticker: self.ticker.clone(), phantom: PhantomData }
    }
}

impl<V> View<V> where V: Sync + Send {
    /// The cell this handle reads.
    pub closed spec fn cell(&self) -> SharedCell<V> {
        self.value
    }

    /// The first handle to a cache whose value lives in `value` and whose
    /// refresh loop runs as `ticker`.
    pub fn new(value: SharedCell<V>, ticker: Task<()>) -> (view: Self)
        ensures
            view.cell() == value,
    {
        View { value, ticker: Arc::new(ticker), phantom: PhantomData }
    }

    /// The current snapshot. Never blocks, whatever the loop is doing.
    pub fn read(&self) -> (snapshot: Arc<V>) {
        self.value.read()
    }
}

} // verus!
