//! A verified core for a terminal front-end to a git working tree.
//!
//! The crate holds the parts of such a front-end that can be stated and
//! proved: reading the short status report into change records, the session
//! state machine that reacts to keys and to the outcome of git commands, the
//! commit-message buffer, and the argument vectors handed to git. Drawing and
//! process spawning are left to the program that uses the crate.

pub mod app;
pub mod bridge;
pub mod buffer;
pub mod git;
pub mod keys;
pub mod layout;
pub mod text;
