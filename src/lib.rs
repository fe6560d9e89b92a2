//! Orchestration engine for a small society of language-model driven agents:
//! prompt shaping, the bounded retry policy around the completion gateway, the
//! per-agent state machine and the managing orchestrator.
//!
//! Everything that talks to the outside world (the gateway, the file system) is
//! performed by the caller: the machines here hand out an effect to perform and
//! take back what came of it.
mod text;

pub mod agent;
pub mod ai_functions;
pub mod backend;
pub mod factsheet;
pub mod manager;
pub mod message;
pub mod policy;
