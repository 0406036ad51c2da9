//! Configuration values the process is started with.
//!
//! The settings are loaded once at startup from a file by the surrounding
//! process and are immutable afterwards; the library only defines their
//! shape.

use vstd::prelude::*;

verus! {

/// Settings of the HTTP server itself.
#[derive(Clone, Debug, PartialEq, Eq)]
pub struct ApplicationSettings {
    /// Port the server listens on.
    pub port: u32,
}

/// Settings of the remote character-lookup API.
#[derive(Clone, Debug, PartialEq, Eq)]
pub struct SwapiSettings {
    /// Base URL of the remote API, without a trailing path.
    pub base_url: String,
    /// Timeout for one remote request, in milliseconds.
    pub timeout_milliseconds: u32,
}

/// All configuration of the process.
#[derive(Clone, Debug, PartialEq, Eq)]
pub struct Settings {
    pub application: ApplicationSettings,
    pub swapi: SwapiSettings,
}

impl Settings {
    /// The remote timeout in milliseconds, widened for use as a duration.
    pub fn timeout_millis(&self) -> (t: u64)
        ensures
            t == self.swapi.timeout_milliseconds,
    {
        self.swapi.timeout_milliseconds as u64
    }
}

} // verus!
