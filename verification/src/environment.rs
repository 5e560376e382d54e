//! Choosing the isolation strategy for a run.
//!
//! Container isolation is preferred whenever a container engine answers a
//! trivial health probe; otherwise the run falls back to a local
//! interpreter environment.  An explicit override forces the local
//! strategy regardless.  The decision is stateless and made afresh on
//! every invocation — the host can change between runs.

use vstd::prelude::*;

verus! {

/// How this run isolates the tool.
#[derive(Debug, Clone, Copy, PartialEq, Eq, Structural)]
pub enum ExecutionEnvironment {
    /// A container engine is available: full isolation (preferred).
    Docker,
    /// No engine (or the override): a local virtual environment.
    LocalVenv,
}

/// Decide the environment from the probe and the override.
pub fn detect_environment(force_venv: bool, docker_available: bool) -> (r: ExecutionEnvironment)
    ensures
        force_venv ==> r == ExecutionEnvironment::LocalVenv,
        !force_venv && docker_available ==> r == ExecutionEnvironment::Docker,
        !force_venv && !docker_available ==> r == ExecutionEnvironment::LocalVenv,
{
    if force_venv {
        ExecutionEnvironment::LocalVenv
    } else if docker_available {
        ExecutionEnvironment::Docker
    } else {
        ExecutionEnvironment::LocalVenv
    }
}

} // verus!
