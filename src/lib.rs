//! Resolution, caching and launching of the Sieve language server binary.
//!
//! The library decides; the host performs. `platform` names the artifacts for
//! an operating system and architecture, `release` picks the asset of a
//! release, `resolver` is the state machine that drives one resolution, and
//! `command` builds the launch command.

pub mod command;
pub mod error;
pub mod guarantees;
pub mod platform;
pub mod release;
pub mod resolver;
