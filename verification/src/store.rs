//! The persistent store: a durable single-record container for the
//! settings, addressed with no key.
//!
//! The store is modelled as the one logical record it holds. A fresh
//! store holds none; a write replaces the record whole, never a part of
//! it.

use vstd::prelude::*;

use crate::error::Error;
use crate::settings::Settings;

verus! {

/// A handle to the durable storage of the single settings record.
pub struct PersistentStore {
    /// The record, or `None` while nothing has been persisted yet.
    pub record: Option<Settings>,
}

impl PersistentStore {
    /// A freshly opened store with no record persisted yet.
    pub fn new() -> (s: Self)
        ensures
            s.record is None,
    {
        PersistentStore { record: None }
    }

    /// Loads the settings record.
    ///
    /// Fails with [`Error::StorageReadError`] exactly when no record has
    /// been persisted; otherwise returns the record as persisted.
    pub fn load_settings(&self) -> (r: Result<Settings, Error>)
        ensures
            match self.record {
                Some(s) => r == Ok::<Settings, Error>(s),
                None => r == Err::<Settings, Error>(Error::StorageReadError),
            },
    {
        match &self.record {
            Some(s) => Ok(s.clone()),
            None => Err(Error::StorageReadError),
        }
    }

    /// Persists `settings` as the whole record, replacing whatever was
    /// there. Never a partial write: afterwards the record equals
    /// `settings` in every field.
    pub fn store_settings(&mut self, settings: Settings) -> (r: Result<(), Error>)
        ensures
            final(self).record == Some(settings),
            r == Ok::<(), Error>(()),
    {
        self.record = Some(settings);
        Ok(())
    }
}

} // verus!
