//! Core logic of the NARA desktop assistant daemon: the approval policy,
//! workspace path handling, the Codex CLI bridge, tool invocation plans,
//! event-log formatting and the daemon's approval bookkeeping.

pub mod text;
pub mod paths;
pub mod pattern;
pub mod policy;
pub mod protocol;
pub mod stamp;
pub mod codex;
pub mod tools;
pub mod store;
pub mod voice;
pub mod daemon;
