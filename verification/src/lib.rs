//! A local process supervisor: decision logic for starting a companion
//! backend process, probing whether one is already alive, and reporting
//! the outcome, together with two small auxiliary queries (application
//! version, file-size metadata).
//!
//! The supervisor itself never touches the operating system: every OS
//! interaction (process-table enumeration, spawning, filesystem metadata)
//! is performed by the embedding application, which feeds the observed
//! outcomes back in as plain values. All decisions — whether to spawn,
//! which entry path to use, and exactly which report to return — are made
//! here and verified.

pub mod launcher;
pub mod probe;
pub mod queries;
pub mod text;
