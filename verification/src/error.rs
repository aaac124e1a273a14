//! The engine's error type.
//!
//! It is the only error shape that crosses the engine/driver boundary:
//! an initialization failure carrying a message, and an unclassified
//! failure carrying nothing.

use vstd::prelude::*;

verus! {

/// The error type for the engine.
#[derive(Debug)]
pub enum EngineError {
    /// Initialization failed, with a human-readable message.
    InitError(String),
    /// An unknown error occurred.
    Unknown,
}

/// The human-readable text of an engine error.
pub open spec fn spec_error_message(e: &EngineError) -> Seq<char> {
    match e {
        EngineError::InitError(m) => "Initialization failed: "@ + m@,
        EngineError::Unknown => "Unknown error occurred"@,
    }
}

impl EngineError {
    /// Renders the error as the line the driver logs on failure.
    pub fn message(&self) -> (r: String)
        ensures
            r@ == spec_error_message(self),
    {
        match self {
            EngineError::InitError(m) => {
                String::from_str("Initialization failed: ").concat(m.as_str())
            },
            EngineError::Unknown => String::from_str("Unknown error occurred"),
        }
    }
}

} // verus!
