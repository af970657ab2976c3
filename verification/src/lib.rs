//! Interactive session engine for a dual-pane browser of storage objects
//! (pools, datasets, volumes, snapshots) managed through an external
//! command-line tool.
//!
//! The crate holds the verified core: the pane content model with its
//! clamped navigation and scrolling rules, the modal dialog state machines,
//! the session key router, and the pure command-plan layer that decides
//! which external program is run with which arguments.  All terminal
//! drawing and process spawning is left to the surrounding binary, which
//! feeds keystrokes and captured command output in as plain values.

pub mod command;
pub mod content;
pub mod contents;
pub mod dialog;
pub mod engine;
