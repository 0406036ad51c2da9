//! Answers whether a named person is taller than a fixed reference height.
//!
//! The library holds the policy of the service: building the remote search
//! URL, parsing a candidate's height, picking the first search result, and
//! mapping the typed errors onto transport status codes. The surrounding
//! process (HTTP server, remote calls, settings file) lives outside and hands
//! the library plain values.

pub mod settings;
pub mod swapi;
pub mod taller;
pub mod taller_route;
