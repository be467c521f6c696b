//! The bot's side of git, the agent backend and the chat platforms.

pub mod backend_laws;
pub mod discord;
pub mod discord_laws;
pub mod git;
pub mod git_laws;
pub mod matrix;
pub mod matrix_laws;
pub mod merge_laws;
pub mod opencode;
pub mod router;
pub mod slash;
pub mod sqlite;
