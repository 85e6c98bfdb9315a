//! Error types for the Baselom engine.

use vstd::prelude::*;

verus! {

/// Main error type for Baselom operations.
#[derive(Debug)]
pub enum BaselomError {
    /// Invalid input data
    ValidationError(String),
    /// Invalid state transition
    StateError(String),
    /// Rule constraint violated
    RuleViolation(String),
}

impl BaselomError {
    /// The human-readable description of this error: a category
    /// prefix followed by the detail message.
    pub open spec fn message_model(&self) -> Seq<char> {
        match self {
            BaselomError::ValidationError(m) => "Validation error: "@ + m@,
            BaselomError::StateError(m) => "State error: "@ + m@,
            BaselomError::RuleViolation(m) => "Rule violation: "@ + m@,
        }
    }

    /// Renders the error as its description.
    pub fn message(&self) -> (r: String)
        ensures
            r@ == self.message_model(),
    {
        match self {
            BaselomError::ValidationError(m) => "Validation error: ".to_owned().concat(m.as_str()),
            BaselomError::StateError(m) => "State error: ".to_owned().concat(m.as_str()),
            BaselomError::RuleViolation(m) => "Rule violation: ".to_owned().concat(m.as_str()),
        }
    }
}

} // verus!
