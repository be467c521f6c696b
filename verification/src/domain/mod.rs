//! The rules of the bot, free of I/O.

pub mod delivery;
pub mod lifecycle;
pub mod line_laws;
pub mod rendering;
pub mod rendering_laws;
pub mod session;
pub mod task;
pub mod worktree;
pub mod worktree_laws;
