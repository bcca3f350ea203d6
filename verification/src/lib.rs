//! Lookup of a software license by its SPDX identifier.
//!
//! The library holds the verified pipeline of the lookup tool: decoding the
//! remote registry document into typed summary records, choosing one record by
//! exact identifier match (or preparing labels for an interactive chooser),
//! decoding the per-license detail document, rendering the detail for the
//! terminal, and driving the whole run as a state machine that tells its
//! caller which outside action (fetch, prompt, write) to perform next.
//! The caller performs the HTTP requests, the interactive prompt and the file
//! writes, and feeds each outcome back as an event.

pub mod errors;
pub mod json;
pub mod model;
pub mod registry;
pub mod select;
pub mod render;
pub mod session;
