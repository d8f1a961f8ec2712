//! Bootstraps a fresh Ubuntu machine into a development environment.
//!
//! The library holds every decision of the run and none of its side effects.
//! A driver asks the [`pipeline::Orchestrator`] what to do next, does it
//! (spawns the child, appends to the file, reads the variable) and hands back
//! what happened; the orchestrator answers with the next request, or stops at
//! the first failure.

pub mod command;
pub mod error;
pub mod environment;
pub mod utils;
pub mod plan;
pub mod steps;
pub mod pipeline;
