//! Verified core of a desktop front end for the Homebrew package manager.
//!
//! The library invokes the external `brew` tool through a caller-supplied
//! runner, parses its structured and line-oriented output into typed records,
//! resolves positional selections against a package catalog, and coordinates
//! batch upgrades with per-item outcome tracking.

pub mod catalog;
pub mod command;
pub mod coordinator;
pub mod json;
pub mod outcome;
pub mod parse;
pub mod records;
pub mod stats;
pub mod text;
