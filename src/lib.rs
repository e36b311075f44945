//! Package lifecycle orchestration over a package manager and a container
//! export tool: command selection, classification of the tools' output, and
//! the step machine that sequences install, remove, query and update.
pub mod classify;
pub mod commands;
pub mod completion;
pub mod laws;
pub mod messages;
pub mod session;
pub mod text;
