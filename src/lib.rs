//! A launcher for project-local command files: it finds the nearest command
//! file above a directory, builds the interpreter invocations that run it,
//! and decides what the launcher prints and how it exits.

pub mod locate;
pub mod text;
pub mod command;
pub mod session;
