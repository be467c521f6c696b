//! lily — a collaborative agent orchestrator for chat platforms.
//!
//! Channels are projects, threads are coding sessions. This crate holds everything that
//! lily decides; what happens outside its own memory is described by the effects of
//! [`application::flow`] and performed by the program around it.
//!
//! - `domain`: messages, tasks, worktrees and how they are shown
//! - `application`: configuration, sessions, commands and scheduled tasks
//! - `connector`: the rules of git, the agent backend, storage and the chat platforms
//! - `cli`: the command line

pub mod application;
pub mod cli;
pub mod cli_laws;
pub mod connector;
pub mod domain;
pub mod json;
pub mod numbers;
pub mod paths;
pub mod text;
pub mod text_laws;
pub mod time;
