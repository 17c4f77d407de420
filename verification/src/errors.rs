//! Error values of the library.
//!
//! Startup errors (`ConfigError`, `ConnectionError`) abort activation; a
//! `PublishError` is terminal to one notification only and never propagates
//! further.

use vstd::prelude::*;

verus! {

/// An identifier string in the configuration could not be decoded.
/// Fatal at startup: no partial target set is ever produced.
#[derive(Debug)]
pub struct ConfigError {
    /// Position of the first undecodable string in the configured list.
    pub index: usize,
    /// The offending string, kept for diagnostics.
    pub input: String,
}

/// The bus connection string was rejected at startup. Fatal: the system has
/// no degraded mode without a sink.
#[derive(Debug)]
pub struct ConnectionError {
    /// A textual description of the failure.
    pub detail: String,
}

/// One publish attempt failed. Recoverable: the triggering notification is
/// still treated as fully handled, with no retry and no requeue.
#[derive(Debug)]
pub struct PublishError {
    /// A textual description of the failure.
    pub detail: String,
}

/// Why activation was aborted.
#[derive(Debug)]
pub enum ActivationError {
    /// An identifier string failed to decode.
    Config(ConfigError),
    /// The bus connection string was rejected.
    Connection(ConnectionError),
}

} // verus!
