//! Core library for the paiOS engine daemon.
//!
//! The library models the whole process lifecycle: selecting a log
//! verbosity from the debug flag, collecting leveled log events in an
//! explicit sink, constructing the engine with an optional
//! configuration path, running startup, and deciding how the process
//! reacts to the startup outcome and to an interrupt. The surrounding
//! binary only parses arguments, forwards the collected events to a
//! real logging backend, and waits for the interrupt signal.

pub mod driver;
pub mod engine;
pub mod error;
pub mod log;

pub use engine::PaiEngine;
pub use error::EngineError;
