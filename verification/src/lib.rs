//! Cross-repository dependency patching for a multi-repository Rust
//! workspace: injects `patch.crates-io` overrides into each repository's
//! manifest so configured crates resolve against a development branch,
//! keeps the companion policy file's allow-list in step, and sequences
//! the surrounding branch, commit, push, and pull-request work as a
//! state machine whose decisions are verified. A thin driver performs
//! the file reads, file writes, and external commands the machine asks
//! for, and reports their results back as events.

pub mod deps;
pub mod text;
pub mod manifest;
pub mod policy;
pub mod commands;
pub mod flow;
pub mod report;
