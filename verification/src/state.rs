//! The process-wide shared state and its once-only installation cell.
//!
//! A process holds one [`StateCell`]. The cell starts empty; the first
//! successful installation fills it with the one [`GlobalState`]
//! instance, and every later installation attempt leaves that instance
//! untouched. Acquiring the state never constructs anything: it hands
//! out the installed instance, or fails while none is installed.
//!
//! The host environment runs the actual first-use race (many concurrent
//! callers, one construction) with a once-cell around this type; what is
//! stated here is the installation discipline itself: installation into
//! a filled cell changes nothing, so however many callers attempt it,
//! the instance that all of them acquire is the one that was installed
//! first.

use vstd::prelude::*;

use crate::error::Error;
use crate::store::PersistentStore;

verus! {

/// The singleton aggregate owning the shared resource handles: here,
/// the handle to the persistent settings store.
pub struct GlobalState {
    pub store: PersistentStore,
}

impl GlobalState {
    /// Wraps a freshly opened store into the shared state.
    pub fn new(store: PersistentStore) -> (s: Self)
        ensures
            s.store == store,
    {
        GlobalState { store }
    }
}

/// The cell the one [`GlobalState`] instance lives in: empty until the
/// first successful installation, filled for the rest of the process
/// lifetime.
pub struct StateCell {
    pub inner: Option<GlobalState>,
}

/// The cell after an installation attempt with `opened`, the outcome of
/// trying to open the store: a filled cell is never changed, an empty
/// one is filled exactly when the store did open.
pub open spec fn cell_after_install(cell: StateCell, opened: Option<PersistentStore>) -> StateCell {
    match cell.inner {
        Some(_) => cell,
        None => match opened {
            Some(store) => StateCell { inner: Some(GlobalState { store }) },
            None => cell,
        },
    }
}

/// What acquiring the state yields, as a value: the installed instance,
/// or [`Error::StateUnavailable`] while none is installed.
pub open spec fn acquire_result(cell: StateCell) -> Result<GlobalState, Error> {
    match cell.inner {
        Some(state) => Ok(state),
        None => Err(Error::StateUnavailable),
    }
}

impl StateCell {
    /// A cell with no state installed yet.
    pub fn new() -> (c: Self)
        ensures
            c.inner is None,
    {
        StateCell { inner: None }
    }

    /// One installation attempt: `opened` is the outcome of opening the
    /// store (`None` when it could not be opened).
    ///
    /// Exactly-once discipline: a filled cell is left as it is, whatever
    /// `opened` holds. An empty cell is filled when the store opened,
    /// and on failure stays empty — failure is not cached, so a later
    /// attempt may still succeed.
    pub fn try_install(&mut self, opened: Option<PersistentStore>) -> (r: Result<(), Error>)
        ensures
            *final(self) == cell_after_install(*old(self), opened),
            r is Ok <==> final(self).inner is Some,
            r is Err ==> r == Err::<(), Error>(Error::InitializationError),
    {
        match &self.inner {
            Some(_) => Ok(()),
            None => match opened {
                Some(store) => {
                    self.inner = Some(GlobalState::new(store));
                    Ok(())
                },
                None => Err(Error::InitializationError),
            },
        }
    }

    /// Acquires the shared state: a pure read of the cell, constructing
    /// nothing. Yields the installed instance, or fails with
    /// [`Error::StateUnavailable`] while none is installed.
    pub fn acquire(&self) -> (r: Result<&GlobalState, Error>)
        ensures
            match r {
                Ok(state) => acquire_result(*self) == Ok::<GlobalState, Error>(*state),
                Err(e) => acquire_result(*self) == Err::<GlobalState, Error>(e),
            },
    {
        match &self.inner {
            Some(state) => Ok(state),
            None => Err(Error::StateUnavailable),
        }
    }
}

/// Once the state is installed, initialization has happened exactly
/// once: every further installation attempt, successful or not, leaves
/// the cell unchanged, and every acquisition yields that same one
/// instance.
pub proof fn lemma_single_initialization(cell: StateCell, opened: Option<PersistentStore>)
    requires
        cell.inner is Some,
    ensures
        cell_after_install(cell, opened) == cell,
        acquire_result(cell) == Ok::<GlobalState, Error>(cell.inner.unwrap()),
{
}

} // verus!
