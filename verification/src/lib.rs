//! Orchestration core for a firmware discovery and update front end.
//!
//! A background worker reports discovery and update progress as `Signal`s;
//! a single-threaded dispatcher applies each signal to a device registry and
//! answers with `Command`s, while a cooperative scheduler animates progress
//! indicators driven by activation events.

pub mod confirm;
pub mod device;
pub mod dispatcher;
pub mod errors;
pub mod laws;
pub mod protocol;
pub mod registry;
pub mod scheduler;
pub mod slots;
