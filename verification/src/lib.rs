//! Core logic of a tool-running orchestrator: it resolves a named tool
//! across prioritized registries, decides an isolation strategy, resolves a
//! compatible interpreter version, persists installation state, and performs
//! safe fast-forward-only repository updates.

pub mod config;
pub mod docker;
pub mod environment;
pub mod error;
pub mod install;
pub mod paths;
pub mod python;
pub mod registry;
pub mod runner;
pub mod selfupdate;
pub mod text;
pub mod tool_state;
pub mod update;
pub mod version;
