//! Locates a platform-specific `p4` command-line tool payload, prepares its
//! executable bytes, and models the execution of the tool as an ordered
//! sequence of line records tagged by origin stream.
//!
//! The filesystem and process side (writing the executable to a temporary
//! path, spawning the child, blocking reads on its pipes) lives outside this
//! library; everything here is the logic that decides what those steps do:
//! platform selection, payload decompression, byte-stream line splitting and
//! decoding, and the stdout-biased pull policy that merges the two streams.

pub mod client;
pub mod error;
pub mod laws;
pub mod lines;
pub mod platform;
pub mod provision;
pub mod record;
pub mod runner;

pub use client::P4Cli;
pub use error::P4CliError;
pub use platform::{Arch, Os, Platform};
pub use provision::{decompress_payload, prepare_binary};
pub use record::P4CliResult;
pub use runner::{PullPhase, ReadTarget, collect_records, merge_records, step};
