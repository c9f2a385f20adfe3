//! Bridge between a host process and a worker ("sidecar") executable that talks
//! only through its argument list, lines of text and a termination signal.
//!
//! The library resolves where the worker lives, drains its event stream into a
//! single result, frames typed requests as JSON and keeps every failure in a
//! structured error that records what was sent and what came back.

pub mod errors;
pub mod path;
pub mod events;
pub mod json;
pub mod python_api;
pub mod api;
pub mod greet;
pub mod api_keys;
pub mod preferences;
pub mod system;
