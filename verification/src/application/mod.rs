//! Use cases over the domain: what the bot does, step by step.

pub mod command_laws;
pub mod commands;
pub mod config;
pub mod flow;
pub mod session_laws;
pub mod session_runtime;
pub mod task_laws;
pub mod task_runner;
