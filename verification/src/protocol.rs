//! Values of the line-delimited protocol spoken with script processes.
//!
//! The protocol itself — serializing messages, reading them line by
//! line from a child process — is I/O plus encoding and lives in the
//! surrounding application. The choice values that prompts carry are
//! plain data and live here.

use vstd::prelude::*;

verus! {

/// A choice option for a selection prompt: display name, submitted
/// value, and an optional description.
#[derive(Debug, Clone)]
pub struct Choice {
    pub name: String,
    pub value: String,
    pub description: Option<String>,
}

impl Choice {
    /// A choice without a description.
    pub fn new(name: String, value: String) -> (r: Choice)
        ensures
            r.name == name,
            r.value == value,
            r.description is None,
    {
        Choice { name, value, description: None }
    }

    /// A choice with a description.
    pub fn with_description(name: String, value: String, description: String) -> (r: Choice)
        ensures
            r.name == name,
            r.value == value,
            r.description == Some(description),
    {
        Choice { name, value, description: Some(description) }
    }
}

} // verus!
