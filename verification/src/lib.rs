//! Workspace bootstrap logic for a project-local state directory.
//!
//! The library models a one-shot initialization procedure: create a hidden
//! state directory, optionally initialize a repository inside it, and seed a
//! default configuration file.  The decisions of that procedure are verified
//! here; the filesystem and repository calls themselves live in the
//! surrounding application, which drives the state machine step by step.

pub mod config_text;
pub mod laws;
pub mod machine;
pub mod options;
pub mod procedure;
pub mod shell;
pub mod workspace;
