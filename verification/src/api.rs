//! The settings service: typed read and write of the one settings
//! record through the shared state.
//!
//! `get` loads the persisted record and reports it with the telemetry
//! flag forced on; `set` persists the caller's record verbatim, the
//! override being applied on read only. Both surface every failure of
//! the state or of the store unchanged.

use vstd::prelude::*;

use crate::error::Error;
use crate::settings::{forced_read, Settings};
use crate::state::{GlobalState, StateCell};
use crate::store::PersistentStore;

verus! {

/// What `get` returns, as a function of the cell it reads: the
/// persisted record under the read-time override, or the one error the
/// state of the cell dictates.
pub open spec fn get_result(cell: StateCell) -> Result<Settings, Error> {
    match cell.inner {
        None => Err(Error::StateUnavailable),
        Some(state) => match state.store.record {
            None => Err(Error::StorageReadError),
            Some(record) => Ok(forced_read(record)),
        },
    }
}

/// The cell after `set(settings)` ran against it: unchanged while no
/// state is installed, else the same state with the record replaced
/// whole by `settings`.
pub open spec fn cell_after_set(cell: StateCell, settings: Settings) -> StateCell {
    match cell.inner {
        None => cell,
        Some(_) => StateCell {
            inner: Some(GlobalState { store: PersistentStore { record: Some(settings) } }),
        },
    }
}

/// Gets the entire settings record.
///
/// Acquires the shared state, loads the record, and forces the
/// telemetry flag on in the returned value — the persisted record is
/// not written back, so every other field is reported exactly as
/// persisted. Fails with [`Error::StateUnavailable`] while no state is
/// installed, and with [`Error::StorageReadError`] when the store holds
/// no record.
pub fn get(cell: &StateCell) -> (r: Result<Settings, Error>)
    ensures
        r == get_result(*cell),
{
    match cell.acquire() {
        Err(e) => Err(e),
        Ok(state) => match state.store.load_settings() {
            Err(e) => Err(e),
            Ok(loaded) => {
                let mut settings = loaded;
                settings.telemetry = true;
                Ok(settings)
            },
        },
    }
}

/// Sets the entire settings record.
///
/// Acquires the shared state and persists `settings` verbatim — the
/// telemetry flag included, with no override on write. The write
/// replaces the record whole; on failure the prior record is left
/// untouched. Fails with [`Error::StateUnavailable`] while no state is
/// installed.
pub fn set(cell: &mut StateCell, settings: Settings) -> (r: Result<(), Error>)
    ensures
        *final(cell) == cell_after_set(*old(cell), settings),
        r is Ok <==> old(cell).inner is Some,
        r is Err ==> r == Err::<(), Error>(Error::StateUnavailable),
{
    match &mut cell.inner {
        None => Err(Error::StateUnavailable),
        Some(state) => state.store.store_settings(settings),
    }
}

/// Writing a record and then reading it round-trips every field except
/// the telemetry flag, which reads back as enabled whatever was
/// written: with a state installed, `set(settings)` followed by `get`
/// yields exactly `forced_read(settings)`.
pub proof fn lemma_set_then_get(cell: StateCell, settings: Settings)
    requires
        cell.inner is Some,
    ensures
        get_result(cell_after_set(cell, settings)) == Ok::<Settings, Error>(
            forced_read(settings),
        ),
        get_result(cell_after_set(cell, settings)).unwrap().telemetry == true,
        crate::settings::eq_except_telemetry(
            get_result(cell_after_set(cell, settings)).unwrap(),
            settings,
        ),
{
}

/// Reading is idempotent: `get` takes the cell by shared reference and
/// pins its result to `get_result`, so two reads with no intervening
/// write return equal values.
pub proof fn lemma_get_idempotent(
    cell: StateCell,
    first: Result<Settings, Error>,
    second: Result<Settings, Error>,
)
    requires
        first == get_result(cell),
        second == get_result(cell),
    ensures
        first == second,
{
}

/// A write is atomic at the granularity of the whole record: after two
/// writes the persisted record equals the later input in every field —
/// never a mixture of the two.
pub proof fn lemma_set_last_write_wins(cell: StateCell, first: Settings, second: Settings)
    requires
        cell.inner is Some,
    ensures
        cell_after_set(cell_after_set(cell, first), second).inner.unwrap().store.record == Some(
            second,
        ),
{
}

} // verus!
