//! Error taxonomy of the orchestrator core.

use vstd::prelude::*;
use vstd::string::StringExecFns;

verus! {

/// Failures surfaced by the orchestrator's decisions.
#[derive(Debug, PartialEq, Eq)]
pub enum TuxBoxError {
    /// The named tool exists in no registry and no fallback entry.
    ToolNotFound(String),
    /// No configuration file has been written yet.
    NotInitialized,
    /// A repository operation failed.
    GitError(String),
    /// Local state could not be read or written.
    ConfigError(String),
    /// Launching the tool failed, or it exited with a non-zero status.
    ExecutionError(String),
    /// No interpreter or container engine satisfies the tool's requirement.
    RuntimeUnavailable(String),
    /// The self-update flow failed.
    UpdateError(String),
    /// An input or output step failed.
    IoError(String),
}

/// The user-facing description each error carries.
pub open spec fn spec_message(e: TuxBoxError) -> Seq<char> {
    match e {
        TuxBoxError::ToolNotFound(name) => "Tool '"@ + name@ + "' not found in registry"@,
        TuxBoxError::NotInitialized => "TuxBox not initialized. Run 'tbox init <registry-url>' first"@,
        TuxBoxError::GitError(m) => "Git operation failed: "@ + m@,
        TuxBoxError::ConfigError(m) => "Configuration error: "@ + m@,
        TuxBoxError::ExecutionError(m) => "Tool execution failed: "@ + m@,
        TuxBoxError::RuntimeUnavailable(m) => "Runtime unavailable: "@ + m@,
        TuxBoxError::UpdateError(m) => "Update failed: "@ + m@,
        TuxBoxError::IoError(m) => "IO error: "@ + m@,
    }
}

impl TuxBoxError {
    /// Render the error for the user.
    pub fn message(&self) -> (r: String)
        ensures
            r@ == spec_message(*self),
    {
        match self {
            TuxBoxError::ToolNotFound(name) => {
                let mut m = String::from_str("Tool '");
                m.append(name.as_str());
                m.append("' not found in registry");
                m
            },
            TuxBoxError::NotInitialized => {
                String::from_str("TuxBox not initialized. Run 'tbox init <registry-url>' first")
            },
            TuxBoxError::GitError(d) => {
                let mut m = String::from_str("Git operation failed: ");
                m.append(d.as_str());
                m
            },
            TuxBoxError::ConfigError(d) => {
                let mut m = String::from_str("Configuration error: ");
                m.append(d.as_str());
                m
            },
            TuxBoxError::ExecutionError(d) => {
                let mut m = String::from_str("Tool execution failed: ");
                m.append(d.as_str());
                m
            },
            TuxBoxError::RuntimeUnavailable(d) => {
                let mut m = String::from_str("Runtime unavailable: ");
                m.append(d.as_str());
                m
            },
            TuxBoxError::UpdateError(d) => {
                let mut m = String::from_str("Update failed: ");
                m.append(d.as_str());
                m
            },
            TuxBoxError::IoError(d) => {
                let mut m = String::from_str("IO error: ");
                m.append(d.as_str());
                m
            },
        }
    }
}

} // verus!
