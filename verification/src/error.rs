//! The error taxonomy of the library.
//!
//! Every failure of the global state or of the store is surfaced to the
//! caller unchanged; no operation retries or recovers locally.

use vstd::prelude::*;

verus! {

/// What can go wrong while acquiring the shared state, while reading or
/// writing the settings record, or while decoding the bundled packaging
/// descriptor.
#[derive(Clone, Copy, Debug, PartialEq, Eq, Structural)]
pub enum Error {
    /// The shared state failed to construct (for example, the store could
    /// not be opened). Surfaced by the installation step itself.
    InitializationError,
    /// An operation needed the shared state, but none has been installed.
    StateUnavailable,
    /// The store holds no settings record, or the record could not be read.
    StorageReadError,
    /// The settings record could not be written to the store.
    StorageWriteError,
    /// The bundled packaging descriptor is not a structured text with a
    /// version string in it.
    DeserializationError,
}

impl Error {
    /// A short human-readable description of the error.
    pub fn message(&self) -> (r: &'static str)
        ensures
            r@.len() > 0,
    {
        let m = match self {
            Error::InitializationError => "global state failed to initialize",
            Error::StateUnavailable => "global state is not available",
            Error::StorageReadError => "failed to read the settings record",
            Error::StorageWriteError => "failed to write the settings record",
            Error::DeserializationError => "failed to decode the packaging descriptor",
        };
        proof {
            reveal_strlit("global state failed to initialize");
            reveal_strlit("global state is not available");
            reveal_strlit("failed to read the settings record");
            reveal_strlit("failed to write the settings record");
            reveal_strlit("failed to decode the packaging descriptor");
        }
        m
    }
}

} // verus!
