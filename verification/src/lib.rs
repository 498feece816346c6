//! A process-wide application state holding a handle to a persistent
//! settings store, and a typed settings service layered on top of it.
//!
//! The state is built once, installed into a [`state::StateCell`], and
//! shared by every caller thereafter; [`api::get`] and [`api::set`] read
//! and write the single persisted [`settings::Settings`] record through
//! it. On read the telemetry flag is forced on; on write the record is
//! persisted verbatim.

pub mod api;
pub mod error;
pub mod launcher;
pub mod settings;
pub mod state;
pub mod store;
