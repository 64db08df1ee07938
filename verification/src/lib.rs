//! Core logic of a version manager for the `wasmer` binary: it resolves a
//! semantic-version constraint against a release catalog, plans the download
//! and caching of the matching release artifact, and drives an install state
//! machine that swaps the active `current` installation with rollback to an
//! `old` backup when a step fails.
//!
//! All decisions live here and are verified; the surrounding process (network
//! transfers, filesystem mutation, spawning the managed binary) performs the
//! actions this library prescribes and reports their outcomes back.

pub mod cache;
pub mod error;
pub mod execute;
pub mod install;
pub mod listing;
pub mod platform;
pub mod release;
pub mod resolve;
pub mod shellcfg;
pub mod text;
pub mod version;
